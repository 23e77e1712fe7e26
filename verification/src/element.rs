//! Probing one accessibility-tree node for its selected text.
//!
//! A node is reduced to what the probe reads of it: whether it exposes the
//! text-selection capability and, if so, the text of each selected range,
//! where reading any single range may fail.

use vstd::prelude::*;
use vstd::string::StringExecFns;

verus! {

/// What probing one node's text-selection capability can observe.
#[derive(Clone, Debug)]
pub enum Selection {
    /// The node does not expose the capability, or querying it failed.
    NoPattern,
    /// The capability answered: one entry per selected range, in range
    /// order; `None` where reading that range's text failed.
    Ranges(Vec<Option<String>>),
}

/// One accessibility-tree node, reduced to what the search reads of it.
#[derive(Clone, Debug)]
pub struct Element {
    pub selection: Selection,
}

/// The concatenation of the range texts from index `i` on; `None` as soon as
/// any range failed to read, so no partial concatenation is ever produced.
pub open spec fn concat_from(ranges: Seq<Option<Seq<char>>>, i: int) -> Option<Seq<char>>
    decreases ranges.len() - i,
{
    if i < 0 || i >= ranges.len() {
        Some(Seq::empty())
    } else {
        match ranges[i] {
            None => None,
            Some(t) => match concat_from(ranges, i + 1) {
                None => None,
                Some(rest) => Some(t + rest),
            },
        }
    }
}

/// What a probe of `el` yields: its selection's range texts concatenated in
/// order, `None` when the capability is absent or any range fails.
pub open spec fn probe_spec(el: Element) -> Option<Seq<char>> {
    match el.selection {
        Selection::NoPattern => None,
        Selection::Ranges(ranges) => concat_from(ranges.deep_view(), 0),
    }
}

/// A probe result as accepted anywhere but at the focused element itself:
/// non-empty text only.
pub open spec fn non_empty_probe_spec(el: Element) -> Option<Seq<char>> {
    match probe_spec(el) {
        None => None,
        Some(t) => if t.len() == 0 {
            None
        } else {
            Some(t)
        },
    }
}

/// Read the current selection of one node: every range's text concatenated
/// in range order; `None` when the node lacks the capability or reading any
/// range fails.
pub fn get_text_from_element(el: &Element) -> (r: Option<String>)
    ensures
        r.deep_view() == probe_spec(*el),
{
    match &el.selection {
        Selection::NoPattern => None,
        Selection::Ranges(ranges) => {
            let ghost dv = ranges.deep_view();
            let mut acc: String = String::new();
            let mut i: usize = 0;
            while i < ranges.len()
                invariant
                    i <= ranges.len(),
                    dv == ranges.deep_view(),
                    dv.len() == ranges@.len(),
                    probe_spec(*el) == concat_from(dv, 0),
                    concat_from(dv, 0) == (match concat_from(dv, i as int) {
                        None => None::<Seq<char>>,
                        Some(rest) => Some(acc@ + rest),
                    }),
                decreases ranges.len() - i,
            {
                let ghost acc0 = acc@;
                match &ranges[i] {
                    None => {
                        proof {
                            assert(dv[i as int] == ranges@[i as int].deep_view());
                            assert(concat_from(dv, i as int) == None::<Seq<char>>);
                        }
                        return None;
                    },
                    Some(t) => {
                        acc.append(t.as_str());
                        proof {
                            assert(dv[i as int] == Some(t@));
                            match concat_from(dv, i + 1) {
                                None => {},
                                Some(rest) => {
                                    assert(acc0 + (t@ + rest) =~= (acc0 + t@) + rest);
                                },
                            }
                        }
                    },
                }
                i += 1;
            }
            proof {
                assert(concat_from(dv, i as int) == Some(Seq::<char>::empty()));
                assert(acc@ + Seq::<char>::empty() =~= acc@);
            }
            Some(acc)
        },
    }
}

/// The probe as used away from the focused element: the selection text only
/// where it is present and non-empty.
pub fn get_non_empty_text(el: &Element) -> (r: Option<String>)
    ensures
        r.deep_view() == non_empty_probe_spec(*el),
{
    match get_text_from_element(el) {
        None => None,
        Some(t) => {
            if t.as_str().is_empty() {
                None
            } else {
                Some(t)
            }
        },
    }
}

} // verus!
