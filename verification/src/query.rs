//! Request paths with an optional query string.

use crate::models::seq_view;
use crate::text::{decimal, render_decimal};
use vstd::prelude::*;

verus! {

/// A named value that narrows a list query when it is present.
#[derive(Clone, Debug, PartialEq, Eq)]
pub struct Filter {
    pub name: String,
    pub value: Option<String>,
}

/// The model of a [`Filter`].
pub struct FilterModel {
    pub name: Seq<char>,
    pub value: Option<Seq<char>>,
}

impl View for Filter {
    type V = FilterModel;

    open spec fn view(&self) -> FilterModel {
        FilterModel {
            name: self.name@,
            value: match self.value {
                Some(v) => Some(v@),
                None => None,
            },
        }
    }
}

/// The filter `name` whose value, when present, is the decimal numeral of an
/// identifier.
pub open spec fn number_filter(name: Seq<char>, value: Option<u64>) -> FilterModel {
    FilterModel {
        name,
        value: match value {
            Some(n) => Some(decimal(n as nat)),
            None => None,
        },
    }
}

/// The filter `name` whose value, when present, is taken as it stands.
pub open spec fn text_filter(name: Seq<char>, value: Option<Seq<char>>) -> FilterModel {
    FilterModel { name, value }
}

/// The term `name=value` of a filter that is present; nothing for one that is
/// absent. The value is inserted literally, without any encoding.
pub open spec fn term_of(filter: FilterModel) -> Option<Seq<char>> {
    match filter.value {
        Some(value) => Some(filter.name + seq!['='] + value),
        None => None,
    }
}

/// The terms of the filters that are present, in the order of the filters.
pub open spec fn query_terms(filters: Seq<FilterModel>) -> Seq<Seq<char>> {
    filters.filter_map(|f: FilterModel| term_of(f))
}

/// The terms, with `&` between each two neighbours.
pub open spec fn joined(terms: Seq<Seq<char>>) -> Seq<char>
    decreases terms.len(),
{
    if terms.len() == 0 {
        Seq::empty()
    } else if terms.len() == 1 {
        terms[0]
    } else {
        joined(terms.drop_last()) + seq!['&'] + terms.last()
    }
}

/// The path of a query: `base` alone where no filter is present, otherwise
/// `base`, then `?`, then the terms of the present filters joined by `&`.
pub open spec fn path_with_query(base: Seq<char>, filters: Seq<FilterModel>) -> Seq<char> {
    let terms = query_terms(filters);
    if terms.len() == 0 {
        base
    } else {
        base + seq!['?'] + joined(terms)
    }
}

impl Filter {
    /// A filter on an identifier.
    pub fn number(name: &str, value: Option<u64>) -> (f: Filter)
        ensures
            f@ == number_filter(name@, value),
    {
        Filter {
            name: String::from_str(name),
            value: match value {
                Some(n) => Some(render_decimal(n)),
                None => None,
            },
        }
    }

    /// A filter on a piece of text.
    pub fn text(name: &str, value: Option<String>) -> (f: Filter)
        ensures
            f@ == text_filter(name@, crate::models::opt_view(value)),
    {
        Filter { name: String::from_str(name), value }
    }
}

/// What one more filter adds to a path.
proof fn lemma_path_step(base: Seq<char>, filters: Seq<FilterModel>, i: int)
    requires
        0 <= i < filters.len(),
    ensures
        path_with_query(base, filters.take(i + 1)) == match term_of(filters[i]) {
            Some(term) => if query_terms(filters.take(i)).len() == 0 {
                base + seq!['?'] + term
            } else {
                path_with_query(base, filters.take(i)) + seq!['&'] + term
            },
            None => path_with_query(base, filters.take(i)),
        },
        query_terms(filters.take(i + 1)).len() == query_terms(filters.take(i)).len() + (
        if term_of(filters[i]) is Some {
            1int
        } else {
            0int
        }),
{
    let f = |f: FilterModel| term_of(f);
    filters.lemma_filter_map_take_succ(f, i);
    let before = query_terms(filters.take(i));
    match term_of(filters[i]) {
        Some(term) => {
            let after = before + seq![term];
            assert(query_terms(filters.take(i + 1)) == after);
            assert(after.drop_last() =~= before);
            assert(after.last() == term);
            if before.len() > 0 {
                assert(base + seq!['?'] + (joined(before) + seq!['&'] + term) =~= (base + seq![
                    '?',
                ] + joined(before)) + seq!['&'] + term);
            }
        },
        None => {
            assert(before + Seq::<Seq<char>>::empty() =~= before);
        },
    }
}

/// Appends the query string of `filters` to `base`.
pub fn build_path(base: &str, filters: &Vec<Filter>) -> (path: String)
    ensures
        path@ == path_with_query(base@, seq_view(filters@)),
{
    let ghost models = seq_view(filters@);
    let mut path = String::from_str(base);
    let mut any = false;
    let mut i: usize = 0;
    proof {
        assert(models.take(0) =~= Seq::empty());
        assert(query_terms(Seq::empty()) =~= Seq::empty()) by {
            reveal_with_fuel(Seq::filter_map, 1);
        }
    }
    while i < filters.len()
        invariant
            i <= filters.len(),
            models == seq_view(filters@),
            any == (query_terms(models.take(i as int)).len() > 0),
            path@ == path_with_query(base@, models.take(i as int)),
        decreases filters.len() - i,
    {
        proof {
            lemma_path_step(base@, models, i as int);
            reveal_strlit("&");
            reveal_strlit("?");
            reveal_strlit("=");
        }
        let filter = &filters[i];
        match &filter.value {
            Some(value) => {
                let ghost before = path@;
                path.append(if any {
                    "&"
                } else {
                    "?"
                });
                path.append(filter.name.as_str());
                path.append("=");
                path.append(value.as_str());
                proof {
                    let sep = if any {
                        seq!['&']
                    } else {
                        seq!['?']
                    };
                    assert(path@ =~= before + sep + (filter.name@ + seq!['='] + value@));
                    assert("&"@ =~= seq!['&']);
                    assert("?"@ =~= seq!['?']);
                }
                any = true;
            },
            None => {},
        }
        i = i + 1;
    }
    proof {
        assert(models.take(i as int) =~= models);
    }
    path
}

/// Where no filter is present the path is the base, without a `?`.
pub proof fn lemma_no_filter_present(base: Seq<char>, filters: Seq<FilterModel>)
    requires
        forall|i: int| 0 <= i < filters.len() ==> (#[trigger] filters[i]).value is None,
    ensures
        query_terms(filters).len() == 0,
        path_with_query(base, filters) == base,
    decreases filters.len(),
{
    reveal_with_fuel(Seq::filter_map, 1);
    if filters.len() > 0 {
        lemma_no_filter_present(base, filters.drop_last());
        assert(filters.last() == filters[filters.len() - 1]);
        assert(query_terms(filters.drop_last()) + Seq::<Seq<char>>::empty() =~= query_terms(
            filters.drop_last(),
        ));
    }
}

/// An absent filter contributes nothing, wherever it stands: the path is the
/// path of the other filters.
pub proof fn lemma_absent_filter_is_omitted(base: Seq<char>, filters: Seq<FilterModel>, i: int)
    requires
        0 <= i < filters.len(),
        filters[i].value is None,
    ensures
        query_terms(filters) == query_terms(filters.remove(i)),
        path_with_query(base, filters) == path_with_query(base, filters.remove(i)),
    decreases filters.len(),
{
    reveal_with_fuel(Seq::filter_map, 1);
    let rest = filters.remove(i);
    if i == filters.len() - 1 {
        assert(rest =~= filters.drop_last());
        assert(query_terms(filters.drop_last()) + Seq::<Seq<char>>::empty() =~= query_terms(
            filters.drop_last(),
        ));
    } else {
        lemma_absent_filter_is_omitted(base, filters.drop_last(), i);
        assert(rest.drop_last() =~= filters.drop_last().remove(i));
        assert(rest.last() == filters.last());
    }
}

/// The terms come in the order of the filters: the terms of two lists of
/// filters, one after the other, are the terms of the first followed by the
/// terms of the second.
pub proof fn lemma_terms_keep_order(first: Seq<FilterModel>, second: Seq<FilterModel>)
    ensures
        query_terms(first + second) == query_terms(first) + query_terms(second),
    decreases second.len(),
{
    reveal_with_fuel(Seq::filter_map, 1);
    if second.len() == 0 {
        assert(first + second =~= first);
        assert(query_terms(first) + query_terms(second) =~= query_terms(first));
    } else {
        lemma_terms_keep_order(first, second.drop_last());
        assert((first + second).drop_last() =~= first + second.drop_last());
        assert((first + second).last() == second.last());
        match term_of(second.last()) {
            Some(term) => {
                assert(query_terms(first + second) =~= query_terms(first) + (query_terms(
                    second.drop_last(),
                ) + seq![term]));
            },
            None => {},
        }
    }
}

/// The terms of one filter: its term where it is present, none where it is
/// absent.
pub proof fn lemma_terms_of_one(filter: FilterModel)
    ensures
        query_terms(seq![filter]) == match term_of(filter) {
            Some(term) => seq![term],
            None => Seq::empty(),
        },
{
    Seq::lemma_filter_map_singleton(filter, |f: FilterModel| term_of(f));
}

/// The path of one filter.
pub proof fn lemma_path_of_one(base: Seq<char>, filter: FilterModel)
    ensures
        path_with_query(base, seq![filter]) == match filter.value {
            Some(value) => base + seq!['?'] + filter.name + seq!['='] + value,
            None => base,
        },
{
    lemma_terms_of_one(filter);
    match filter.value {
        Some(value) => {
            assert(base + seq!['?'] + (filter.name + seq!['='] + value) =~= base + seq!['?']
                + filter.name + seq!['='] + value);
        },
        None => {},
    }
}

/// The path of two filters, in each of the four cases: both absent, one
/// present, the other present, both present. Where both are present the term
/// of the first stands before the term of the second.
pub proof fn lemma_path_of_two(base: Seq<char>, first: FilterModel, second: FilterModel)
    ensures
        path_with_query(base, seq![first, second]) == match (first.value, second.value) {
            (None, None) => base,
            (Some(a), None) => base + seq!['?'] + first.name + seq!['='] + a,
            (None, Some(b)) => base + seq!['?'] + second.name + seq!['='] + b,
            (Some(a), Some(b)) => base + seq!['?'] + first.name + seq!['='] + a + seq!['&']
                + second.name + seq!['='] + b,
        },
{
    lemma_terms_of_one(first);
    lemma_terms_of_one(second);
    lemma_terms_keep_order(seq![first], seq![second]);
    assert(seq![first] + seq![second] =~= seq![first, second]);
    let terms = query_terms(seq![first, second]);
    match (first.value, second.value) {
        (None, None) => {
            assert(terms =~= Seq::empty());
        },
        (Some(a), None) => {
            assert(terms =~= seq![first.name + seq!['='] + a]);
            assert(base + seq!['?'] + (first.name + seq!['='] + a) =~= base + seq!['?']
                + first.name + seq!['='] + a);
        },
        (None, Some(b)) => {
            assert(terms =~= seq![second.name + seq!['='] + b]);
            assert(base + seq!['?'] + (second.name + seq!['='] + b) =~= base + seq!['?']
                + second.name + seq!['='] + b);
        },
        (Some(a), Some(b)) => {
            let ta = first.name + seq!['='] + a;
            let tb = second.name + seq!['='] + b;
            assert(terms =~= seq![ta, tb]);
            assert(terms.drop_last() =~= seq![ta]);
            assert(joined(seq![ta]) == ta);
            assert(joined(terms) == ta + seq!['&'] + tb);
            assert(base + seq!['?'] + (ta + seq!['&'] + tb) =~= base + seq!['?'] + first.name
                + seq!['='] + a + seq!['&'] + second.name + seq!['='] + b);
        },
    }
}

} // verus!
