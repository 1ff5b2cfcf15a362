//! Component-registry filtering: a free-text search over named, described,
//! URI-addressed components, and a single-item lookup by name or URI.

use vstd::prelude::*;

use crate::text::{
    contains_substring, eq_ignore_case, is_space_char, lemma_all_space_split_empty, lower_of,
    spec_contains, spec_eq_ignore_case, split_terms, split_ws, str_eq, to_lower,
};

verus! {

/// One entry of the component registry.
#[derive(Debug)]
pub struct RegistryComponent {
    pub name: String,
    pub description: String,
    pub uri: String,
}

impl Clone for RegistryComponent {
    fn clone(&self) -> (r: Self)
        ensures
            r == *self,
    {
        RegistryComponent {
            name: self.name.clone(),
            description: self.description.clone(),
            uri: self.uri.clone(),
        }
    }
}

/// A lower-cased query term hits a component when it occurs in the
/// lower-cased name, description or URI.
pub open spec fn term_matches(c: RegistryComponent, term: Seq<char>) -> bool {
    spec_contains(lower_of(c.name@), term) || spec_contains(lower_of(c.description@), term)
        || spec_contains(lower_of(c.uri@), term)
}

/// The lower-cased words of a query string.
pub open spec fn query_terms(q: Seq<char>) -> Seq<Seq<char>> {
    split_ws(q).map_values(|t: Seq<char>| lower_of(t))
}

/// A component is kept when at least one term hits it: terms and fields
/// combine by OR, never by AND.
pub open spec fn matches_query(c: RegistryComponent, terms: Seq<Seq<char>>) -> bool {
    exists|k: int| 0 <= k < terms.len() && term_matches(c, #[trigger] terms[k])
}

/// The components that match at least one term, kept in order.
pub open spec fn filter_components(
    s: Seq<RegistryComponent>,
    terms: Seq<Seq<char>>,
) -> Seq<RegistryComponent>
    decreases s.len(),
{
    if s.len() == 0 {
        Seq::empty()
    } else {
        let rest = filter_components(s.drop_last(), terms);
        if matches_query(s.last(), terms) {
            rest.push(s.last())
        } else {
            rest
        }
    }
}

/// What a search returns: everything for no query or a query with no
/// words, and otherwise the matching components in order.
pub open spec fn spec_search_components(
    s: Seq<RegistryComponent>,
    query: Option<Seq<char>>,
) -> Seq<RegistryComponent> {
    match query {
        Option::None => s,
        Option::Some(q) => if query_terms(q).len() == 0 {
            s
        } else {
            filter_components(s, query_terms(q))
        },
    }
}

/// An empty or all-whitespace query splits into no terms, so a search
/// with it returns every component, unchanged and in order.
pub proof fn lemma_blank_query_returns_all(s: Seq<RegistryComponent>, q: Seq<char>)
    requires
        forall|i: int| 0 <= i < q.len() ==> is_space_char(#[trigger] q[i]),
    ensures
        spec_search_components(s, Some(q)) == s,
{
    lemma_all_space_split_empty(q);
}

/// Copies a slice of components into a vector, value for value.
fn copy_all(components: &[RegistryComponent]) -> (r: Vec<RegistryComponent>)
    ensures
        r@ == components@,
{
    let mut r: Vec<RegistryComponent> = Vec::new();
    let mut i: usize = 0;
    let len = components.len();
    while i < len
        invariant
            len == components@.len(),
            i <= len,
            r@ == components@.subrange(0, i as int),
        decreases len - i,
    {
        let c = vstd::slice::slice_index_get(components, i);
        r.push(c.clone());
        proof {
            assert(r@ =~= components@.subrange(0, i + 1));
        }
        i += 1;
    }
    proof {
        assert(components@.subrange(0, len as int) =~= components@);
    }
    r
}

/// Whether any of the already lower-cased `terms` hits `c`.
fn component_matches(c: &RegistryComponent, terms: &Vec<String>) -> (r: bool)
    ensures
        r == matches_query(*c, terms@.map_values(|t: String| t@)),
{
    let ghost term_views = terms@.map_values(|t: String| t@);
    let name_l = to_lower(c.name.as_str());
    let desc_l = to_lower(c.description.as_str());
    let uri_l = to_lower(c.uri.as_str());
    let mut k: usize = 0;
    let len = terms.len();
    while k < len
        invariant
            len == terms@.len(),
            k <= len,
            term_views == terms@.map_values(|t: String| t@),
            name_l@ == lower_of(c.name@),
            desc_l@ == lower_of(c.description@),
            uri_l@ == lower_of(c.uri@),
            forall|m: int| 0 <= m < k ==> !term_matches(*c, #[trigger] term_views[m]),
        decreases len - k,
    {
        let term = &terms[k];
        if contains_substring(name_l.as_str(), term.as_str()) || contains_substring(
            desc_l.as_str(),
            term.as_str(),
        ) || contains_substring(uri_l.as_str(), term.as_str()) {
            proof {
                assert(term_views[k as int] == terms@[k as int]@);
                assert(term_matches(*c, term_views[k as int]));
            }
            return true;
        }
        k += 1;
    }
    false
}

/// Lower-cases each word of the query, in order.
fn lowered_terms(q: &str) -> (r: Vec<String>)
    ensures
        r@.map_values(|t: String| t@) == query_terms(q@),
{
    let words = split_terms(q);
    let mut r: Vec<String> = Vec::new();
    let mut i: usize = 0;
    let len = words.len();
    while i < len
        invariant
            len == words@.len(),
            i <= len,
            words@.map_values(|t: String| t@) == split_ws(q@),
            r@.map_values(|t: String| t@) == words@.map_values(|t: String| t@).subrange(
                0,
                i as int,
            ).map_values(|t: Seq<char>| lower_of(t)),
        decreases len - i,
    {
        let lowered = to_lower(words[i].as_str());
        let ghost prev = r@.map_values(|t: String| t@);
        r.push(lowered);
        proof {
            let word_views = words@.map_values(|t: String| t@);
            assert(r@.map_values(|t: String| t@) =~= prev.push(lower_of(word_views[i as int])));
            assert(word_views.subrange(0, i + 1).map_values(|t: Seq<char>| lower_of(t))
                =~= word_views.subrange(0, i as int).map_values(|t: Seq<char>| lower_of(t)).push(
                lower_of(word_views[i as int]),
            ));
        }
        i += 1;
    }
    proof {
        let word_views = words@.map_values(|t: String| t@);
        assert(word_views.subrange(0, len as int) =~= word_views);
    }
    r
}

/// Searches the registry. No query, or one that splits into no words,
/// returns every component; otherwise a component is returned exactly
/// when some lower-cased query word occurs in its lower-cased name,
/// description or URI.
pub fn search_components(components: &[RegistryComponent], query: Option<&str>) -> (r: Vec<
    RegistryComponent,
>)
    ensures
        query is None ==> r@ == spec_search_components(components@, None),
        query matches Some(q) ==> r@ == spec_search_components(components@, Some(q@)),
{
    match query {
        None => copy_all(components),
        Some(q) => {
            let terms = lowered_terms(q);
            let ghost term_views = terms@.map_values(|t: String| t@);
            if terms.len() == 0 {
                copy_all(components)
            } else {
                let mut r: Vec<RegistryComponent> = Vec::new();
                let mut i: usize = 0;
                let len = components.len();
                while i < len
                    invariant
                        len == components@.len(),
                        i <= len,
                        term_views == terms@.map_values(|t: String| t@),
                        term_views == query_terms(q@),
                        term_views.len() > 0,
                        r@ == filter_components(components@.subrange(0, i as int), term_views),
                    decreases len - i,
                {
                    let c = vstd::slice::slice_index_get(components, i);
                    let keep = component_matches(c, &terms);
                    proof {
                        let prefix = components@.subrange(0, i + 1);
                        assert(prefix.drop_last() =~= components@.subrange(0, i as int));
                        assert(prefix.last() == components@[i as int]);
                    }
                    if keep {
                        r.push(c.clone());
                    }
                    i += 1;
                }
                proof {
                    assert(components@.subrange(0, len as int) =~= components@);
                }
                r
            }
        },
    }
}

/// The identifier hits a component by ASCII case-insensitive name
/// equality, or by exact, case-sensitive URI equality.
pub open spec fn id_matches(c: RegistryComponent, id: Seq<char>) -> bool {
    spec_eq_ignore_case(c.name@, id) || c.uri@ == id
}

/// Finds the first component whose name equals `name_or_uri` up to ASCII
/// case, or whose URI equals it exactly; `None` when no component does.
pub fn find_component_by_name_or_uri(
    components: &[RegistryComponent],
    name_or_uri: &str,
) -> (r: Option<RegistryComponent>)
    ensures
        match r {
            None => forall|i: int|
                0 <= i < components@.len() ==> !id_matches(
                    #[trigger] components@[i],
                    name_or_uri@,
                ),
            Some(c) => exists|i: int|
                0 <= i < components@.len() && c == components@[i] && id_matches(c, name_or_uri@)
                    && (forall|j: int|
                    0 <= j < i ==> !id_matches(#[trigger] components@[j], name_or_uri@)),
        },
{
    let mut i: usize = 0;
    let len = components.len();
    while i < len
        invariant
            len == components@.len(),
            i <= len,
            forall|j: int| 0 <= j < i ==> !id_matches(#[trigger] components@[j], name_or_uri@),
        decreases len - i,
    {
        let c = vstd::slice::slice_index_get(components, i);
        if eq_ignore_case(c.name.as_str(), name_or_uri) || str_eq(c.uri.as_str(), name_or_uri) {
            return Some(c.clone());
        }
        i += 1;
    }
    None
}

} // verus!
