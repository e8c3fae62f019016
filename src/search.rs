use vstd::prelude::*;
use vstd::string::*;

use crate::advert::advert_prefix;
use crate::document::{count_at, json_of, parse_document, str_in_list, text_in_list, usize_at};

verus! {

/// The listing URL of each advert identifier, in order.
pub fn ids_to_url(list: Vec<String>) -> (r: Vec<String>)
    ensures
        r@.len() == list@.len(),
        forall|i: int| 0 <= i < list@.len() ==> r@[i]@ == advert_prefix() + list@[i]@,
{
    let mut url_list: Vec<String> = Vec::new();
    let mut i: usize = 0;
    while i < list.len()
        invariant
            i <= list@.len(),
            url_list@.len() == i,
            forall|j: int| 0 <= j < i ==> url_list@[j]@ == advert_prefix() + list@[j]@,
        decreases list@.len() - i,
    {
        let mut full_url = "https://arbetsformedlingen.se/platsbanken/annonser/".to_owned();
        full_url.append(list[i].as_str());
        url_list.push(full_url);
        i = i + 1;
    }
    url_list
}

/// The municipality code of a supported search region.
pub open spec fn region_code_of(region: Seq<char>) -> Option<Seq<char>> {
    if region == "Jonkoping"@ {
        Some("KURg_KJF_Lwc"@)
    } else if region == "Skovde"@ {
        Some("fqAy_4ji_Lz2"@)
    } else {
        None
    }
}

/// Looks up the municipality code of a region name; other names are not
/// supported.
pub fn region_code(region: &str) -> (r: Option<String>)
    ensures
        match r {
            Some(c) => region_code_of(region@) == Some(c@),
            None => region_code_of(region@) is None,
        },
{
    let name = region.to_owned();
    let jonkoping = "Jonkoping".to_owned();
    let skovde = "Skovde".to_owned();
    if name == jonkoping {
        Some("KURg_KJF_Lwc".to_owned())
    } else if name == skovde {
        Some("fqAy_4ji_Lz2".to_owned())
    } else {
        None
    }
}

/// Parses a search response.
pub fn text_to_json(text: &str) -> (r: Option<json::JsonValue>)
    ensures
        r == json_of(text@),
{
    parse_document(text)
}

/// A search response lists its adverts: it gives their number, and an `id`
/// string for each of that many elements of `ads`.
pub open spec fn lists_ids(doc: json::JsonValue) -> bool {
    &&& count_at(doc, "numberOfAds"@) is Some
    &&& forall|i: usize|
        i < count_at(doc, "numberOfAds"@)->Some_0 ==> (#[trigger] str_in_list(
            doc,
            "ads"@,
            i,
            "id"@,
        )) is Some
}

/// The advert identifiers of a search response: `numberOfAds` of them, from
/// the `id` of each element of `ads`, in order; nothing where the count or
/// an identifier is missing.
pub fn get_list(doc: &json::JsonValue) -> (r: Option<Vec<String>>)
    ensures
        r is Some <==> lists_ids(*doc),
        r is Some ==> r->Some_0@.len() == count_at(*doc, "numberOfAds"@)->Some_0,
        r is Some ==> forall|i: int|
            0 <= i < r->Some_0@.len() ==> Some(r->Some_0@[i]@) == str_in_list(
                *doc,
                "ads"@,
                i as usize,
                "id"@,
            ),
{
    let ad_count = match usize_at(doc, "numberOfAds") {
        Some(n) => n,
        None => return None,
    };
    let mut list: Vec<String> = Vec::new();
    let mut item: usize = 0;
    while item < ad_count
        invariant
            item <= ad_count,
            count_at(*doc, "numberOfAds"@) == Some(ad_count),
            list@.len() == item,
            forall|j: int|
                0 <= j < item ==> Some(list@[j]@) == str_in_list(*doc, "ads"@, j as usize, "id"@),
        decreases ad_count - item,
    {
        match text_in_list(doc, "ads", item, "id") {
            Some(id) => list.push(id),
            None => {
                assert(!lists_ids(*doc));
                return None;
            },
        }
        item = item + 1;
    }
    proof {
        assert forall|i: usize| i < ad_count implies (#[trigger] str_in_list(
            *doc,
            "ads"@,
            i,
            "id"@,
        )) is Some by {
            assert(Some(list@[i as int]@) == str_in_list(*doc, "ads"@, i, "id"@));
        }
    }
    Some(list)
}

} // verus!
