//! The names under which a stored resource type is served: its route, the
//! route of one item, its collection and its documentation tag, all derived
//! from the type's name.
use vstd::prelude::*;
use vstd::string::*;
use pluralizer::pluralize;

verus! {

/// What `str::to_lowercase` makes of a text (Unicode lowercase mapping).
pub uninterp spec fn lowercase_of(text: Seq<char>) -> Seq<char>;

/// What `char::to_uppercase` makes of a character (one or more characters).
pub uninterp spec fn uppercase_of(c: char) -> Seq<char>;

/// `pluralizer::pluralize` gave `result` for these arguments on some call.
/// The crate's rules live in a table that the whole process shares and that
/// its `add_*` functions change, so this relates a call to its result
/// without claiming that two calls agree.
pub uninterp spec fn pluralize_gave(word: Seq<char>, count: isize, include_count: bool, result: Seq<char>) -> bool;

/// Every character of `text` is ASCII.
pub open spec fn is_ascii_text(text: Seq<char>) -> bool {
    forall|i: int| 0 <= i < text.len() ==> (#[trigger] text[i] as int) < 128
}

/// The ASCII lower case of a character: `A`..=`Z` become `a`..=`z`.
pub open spec fn ascii_lower(c: char) -> char {
    if 'A' <= c <= 'Z' {
        ((c as int) + 32) as char
    } else {
        c
    }
}

/// The ASCII upper case of a character: `a`..=`z` become `A`..=`Z`.
pub open spec fn ascii_upper(c: char) -> char {
    if 'a' <= c <= 'z' {
        ((c as int) - 32) as char
    } else {
        c
    }
}

/// A text with each ASCII capital lower-cased.
pub open spec fn ascii_lowercase(text: Seq<char>) -> Seq<char> {
    text.map_values(|c: char| ascii_lower(c))
}

/// `str::to_lowercase`. On ASCII text the Unicode mapping lower-cases each
/// capital and keeps every other character.
#[verifier::external_body]
fn lowercase(text: &str) -> (res: String)
    ensures
        res@ == lowercase_of(text@),
        is_ascii_text(text@) ==> res@ == ascii_lowercase(text@),
{
    text.to_lowercase()
}

/// `char::to_uppercase`, collected into a string. An ASCII character maps
/// to the one character of its ASCII upper case.
#[verifier::external_body]
fn uppercase(c: char) -> (res: String)
    ensures
        res@ == uppercase_of(c),
        (c as int) < 128 ==> res@ == seq![ascii_upper(c)],
{
    c.to_uppercase().to_string()
}

/// `pluralizer::pluralize`: what it gives for the word, the count and
/// whether the count is written in front. The result depends on the
/// process-wide rule table, so only its relation to the arguments of this
/// call is stated.
#[verifier::external_body]
fn plural(word: &str, count: isize, include_count: bool) -> (res: String)
    ensures
        pluralize_gave(word@, count, include_count, res@),
{
    pluralize(word, count, include_count)
}

/// `text` with its first character upper-cased.
pub open spec fn capitalized(text: Seq<char>) -> Seq<char> {
    if text.len() == 0 {
        text
    } else {
        uppercase_of(text[0]) + text.drop_first()
    }
}

/// Upper-cases the first character of a text and keeps the rest.
pub fn capitalize_first_letter(input: &str) -> (res: String)
    ensures
        res@ == capitalized(input@),
        input@.len() > 0 && (input@[0] as int) < 128 ==> res@ == seq![ascii_upper(input@[0])]
            + input@.drop_first(),
{
    let n = input.unicode_len();
    if n == 0 {
        return String::from_str(input);
    }
    let mut res = uppercase(input.get_char(0));
    res.append(input.substring_char(1, n));
    assert(input@.subrange(1, n as int) =~= input@.drop_first());
    res
}

/// The names of a resource type.
pub struct DbResourceNames {
    /// Route of the collection: a slash and the lower-cased type name.
    pub url: String,
    /// Route of one item: the collection route followed by `/{id}`.
    pub url_with_id: String,
    /// Name of the stored collection: the plural of the lower-cased name.
    pub collection: String,
    /// Documentation tag: the collection name, capitalized.
    pub tag: String,
}

/// Route of the collection of the resource type called `resource_name`.
pub open spec fn collection_route(resource_name: Seq<char>) -> Seq<char> {
    "/"@ + lowercase_of(resource_name)
}

/// Route of one item of the resource type called `resource_name`.
pub open spec fn item_route(resource_name: Seq<char>) -> Seq<char> {
    collection_route(resource_name) + "/{id}"@
}

/// Derives the names of the resource type called `resource_name`.
pub fn db_resource_names(resource_name: &str) -> (res: DbResourceNames)
    ensures
        res.url@ == collection_route(resource_name@),
        res.url_with_id@ == item_route(resource_name@),
        pluralize_gave(lowercase_of(resource_name@), 2, false, res.collection@),
        res.tag@ == capitalized(res.collection@),
        is_ascii_text(resource_name@) ==> res.url@ == "/"@ + ascii_lowercase(resource_name@),
{
    let name = lowercase(resource_name);
    let mut url = String::from_str("/");
    url.append(name.as_str());
    let collection = plural(name.as_str(), 2, false);
    let tag = capitalize_first_letter(collection.as_str());
    let mut url_with_id = url.clone();
    url_with_id.append("/{id}");
    DbResourceNames { url, url_with_id, collection, tag }
}

/// The route of one item extends the route of the collection: it is the
/// collection route followed by `/{id}`, and both start with a slash.
pub proof fn lemma_item_route_extends_collection_route(resource_name: Seq<char>)
    ensures
        item_route(resource_name).subrange(0, collection_route(resource_name).len() as int)
            == collection_route(resource_name),
        collection_route(resource_name)[0] == '/',
        item_route(resource_name)[0] == '/',
{
    reveal_strlit("/");
    let c = collection_route(resource_name);
    assert(item_route(resource_name).subrange(0, c.len() as int) =~= c);
}

} // verus!
