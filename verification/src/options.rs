//! Option lists: what a declaration writes behind a field or a structure to
//! steer its resolution, such as `from = "PORT"` or `nested`.

use vstd::prelude::*;
use quote::ToTokens;
use syn::parse::Parser;
use syn::punctuated::Punctuated;
use syn::token::Comma;
use syn::{Expr, ExprLit, Lit, Meta, MetaNameValue};

verus! {

/// The form of one entry in an option list.
#[derive(Debug, PartialEq, Eq)]
pub enum MetaKind {
    /// A bare name, as in `nested`.
    Path,
    /// A name with a literal value, as in `from = "PORT"`.
    Literal(String),
    /// Any other form: a value that is no literal, or a list.
    Other,
}

/// One entry in an option list.
#[derive(Debug, PartialEq, Eq)]
pub struct MetaItem {
    pub name: String,
    pub kind: MetaKind,
}

/// Mathematical model of a [`MetaKind`].
pub enum MetaKindView {
    Path,
    Literal(Seq<char>),
    Other,
}

/// Mathematical model of a [`MetaItem`].
pub struct MetaItemView {
    pub name: Seq<char>,
    pub kind: MetaKindView,
}

impl View for MetaItem {
    type V = MetaItemView;

    open spec fn view(&self) -> MetaItemView {
        MetaItemView {
            name: self.name@,
            kind: match self.kind {
                MetaKind::Path => MetaKindView::Path,
                MetaKind::Literal(value) => MetaKindView::Literal(value@),
                MetaKind::Other => MetaKindView::Other,
            },
        }
    }
}

/// The models of the entries of an option list, in order.
pub open spec fn items_view(list: Seq<MetaItem>) -> Seq<MetaItemView> {
    Seq::new(list.len(), |i: int| list[i]@)
}

/// The option list that a text denotes in the syntax of attribute
/// arguments, such as `from = "PORT", default = "80"`, or `None` where the
/// text is no such list. Each entry is named by its path; it is a literal
/// where it has the form of a name, `=` and a string literal, and then holds
/// the string's value.
pub uninterp spec fn parsed_meta_list(text: Seq<char>) -> Option<Seq<MetaItemView>>;

/// The model of an option list that may be missing.
pub open spec fn option_items_view(list: Option<Vec<MetaItem>>) -> Option<Seq<MetaItemView>> {
    match list {
        Some(items) => Some(items_view(items@)),
        None => None,
    }
}

/// Calls syn's `Punctuated::<Meta, Comma>::parse_terminated` on the text,
/// through `Parser::parse_str`, and hands out each `Meta` as a plain entry:
/// its path as printed, and which of the three forms it has. The result is
/// a function of the text alone.
#[verifier::external_body]
pub(crate) fn parse_meta_list(text: &str) -> (r: Option<Vec<MetaItem>>)
    ensures
        option_items_view(r) == parsed_meta_list(text@),
{
    let metas = Punctuated::<Meta, Comma>::parse_terminated.parse_str(text).ok()?;
    Some(metas.iter().map(|meta| MetaItem {
        name: meta.path().to_token_stream().to_string(),
        kind: match meta {
            Meta::Path(_) => MetaKind::Path,
            Meta::NameValue(MetaNameValue {
                value: Expr::Lit(ExprLit { lit: Lit::Str(s), .. }), ..
            }) => MetaKind::Literal(s.value()),
            _ => MetaKind::Other,
        },
    }).collect())
}

/// The result of a search for a name in an option list.
#[derive(Debug, PartialEq, Eq)]
pub enum MatchingItem<'a> {
    /// The entry is a name with a literal value.
    WithValue(&'a str),
    /// The entry is a bare name.
    NoValue,
}

/// Mathematical model of a [`MatchingItem`].
pub enum MatchingView {
    WithValue(Seq<char>),
    NoValue,
}

impl<'a> View for MatchingItem<'a> {
    type V = MatchingView;

    open spec fn view(&self) -> MatchingView {
        match self {
            MatchingItem::WithValue(value) => MatchingView::WithValue(value@),
            MatchingItem::NoValue => MatchingView::NoValue,
        }
    }
}

/// How many entries of `list` are named `name`.
pub open spec fn count_named(list: Seq<MetaItemView>, name: Seq<char>) -> nat
    decreases list.len(),
{
    if list.len() == 0 {
        0
    } else {
        count_named(list.drop_last(), name) + if list.last().name == name {
            1nat
        } else {
            0nat
        }
    }
}

/// The first entry of `list` that is named `name`.
pub open spec fn first_named(list: Seq<MetaItemView>, name: Seq<char>) -> Option<MetaItemView>
    decreases list.len(),
{
    if list.len() == 0 {
        None
    } else {
        match first_named(list.drop_last(), name) {
            Some(item) => Some(item),
            None => if list.last().name == name {
                Some(list.last())
            } else {
                None
            },
        }
    }
}

/// Whether `name` can be searched for in `list`: at most one entry has the
/// name, and that entry is a bare name or a name with a literal value.
pub open spec fn findable(list: Seq<MetaItemView>, name: Seq<char>) -> bool {
    &&& count_named(list, name) <= 1
    &&& match first_named(list, name) {
        Some(item) => !(item.kind is Other),
        None => true,
    }
}

/// What a search for `name` in `list` finds.
pub open spec fn matched(list: Seq<MetaItemView>, name: Seq<char>) -> Option<MatchingView> {
    match first_named(list, name) {
        Some(item) => match item.kind {
            MetaKindView::Path => Some(MatchingView::NoValue),
            MetaKindView::Literal(value) => Some(MatchingView::WithValue(value)),
            MetaKindView::Other => None,
        },
        None => None,
    }
}

/// The literal value that a search for `name` in `list` finds, if any.
pub open spec fn matched_value(list: Seq<MetaItemView>, name: Seq<char>) -> Option<Seq<char>> {
    match matched(list, name) {
        Some(MatchingView::WithValue(value)) => Some(value),
        _ => None,
    }
}

/// The model of a search result.
pub open spec fn matching_view(r: Option<MatchingItem>) -> Option<MatchingView> {
    match r {
        Some(item) => Some(item@),
        None => None,
    }
}

/// Whether `name` can be searched for in `list`.
pub fn can_find(list: &Vec<MetaItem>, item_name: &str) -> (r: bool)
    ensures
        r == findable(items_view(list@), item_name@),
{
    let ghost all = items_view(list@);
    let wanted = item_name.to_owned();
    let mut count: usize = 0;
    let mut first_is_other = false;
    let mut i: usize = 0;
    while i < list.len()
        invariant
            i <= list.len(),
            all == items_view(list@),
            wanted@ == item_name@,
            count <= i,
            count == count_named(all.take(i as int), item_name@),
            first_is_other == match first_named(all.take(i as int), item_name@) {
                Some(item) => item.kind is Other,
                None => false,
            },
            count == 0 <==> first_named(all.take(i as int), item_name@) is None,
        decreases list.len() - i,
    {
        assert(all.take(i + 1).drop_last() =~= all.take(i as int));
        assert(all.take(i + 1).last() == list@[i as int]@);
        if list[i].name == wanted {
            if count == 0 {
                first_is_other = matches!(list[i].kind, MetaKind::Other);
            }
            count += 1;
        }
        i += 1;
    }
    assert(all.take(list.len() as int) =~= all);
    count <= 1 && !first_is_other
}

/// Finds the entry named `item_name` in `list`: `None` where there is no
/// such entry, else whether it is a bare name or has a literal value.
pub fn find_item_in_list<'l>(list: &'l Vec<MetaItem>, item_name: &str) -> (r: Option<
    MatchingItem<'l>,
>)
    requires
        findable(items_view(list@), item_name@),
    ensures
        matching_view(r) == matched(items_view(list@), item_name@),
{
    let ghost all = items_view(list@);
    let wanted = item_name.to_owned();
    let mut i: usize = 0;
    while i < list.len()
        invariant
            i <= list.len(),
            all == items_view(list@),
            wanted@ == item_name@,
            first_named(all.take(i as int), item_name@) is None,
            findable(all, item_name@),
        decreases list.len() - i,
    {
        assert(all.take(i + 1).drop_last() =~= all.take(i as int));
        assert(all.take(i + 1).last() == list@[i as int]@);
        if list[i].name == wanted {
            proof {
                first_named_stays(all, (i + 1) as nat, item_name@);
            }
            match &list[i].kind {
                MetaKind::Path => {
                    return Some(MatchingItem::NoValue);
                },
                MetaKind::Literal(value) => {
                    return Some(MatchingItem::WithValue(value.as_str()));
                },
                MetaKind::Other => {
                    return None;
                },
            }
        }
        i += 1;
    }
    assert(all.take(list.len() as int) =~= all);
    None
}

/// Once an entry with the name has been met among the first `k`, it stays
/// the first such entry of the whole list.
pub proof fn first_named_stays(list: Seq<MetaItemView>, k: nat, name: Seq<char>)
    requires
        k <= list.len(),
        first_named(list.take(k as int), name) is Some,
    ensures
        first_named(list, name) == first_named(list.take(k as int), name),
    decreases list.len(),
{
    if k < list.len() {
        assert(list.drop_last().take(k as int) =~= list.take(k as int));
        first_named_stays(list.drop_last(), k, name);
    } else {
        assert(list.take(k as int) =~= list);
    }
}

} // verus!
