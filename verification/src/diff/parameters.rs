//! The diff of the parameters of an operation, keyed by what identifies a
//! parameter: its name and location, or the reference that stands for it.

use super::common::{bool_change, text_change, BoolDiff, OptionalStringDiff, OptionalStringDiffView};
use super::keyed::{
    changed_in, has_key, is_first_position, lemma_changed_in_step, lemma_first_position,
    lemma_only_in_step, only_in,
};
use crate::openapi::{
    pairs_of, view_of, views_of, Parameter, ParameterLocation, ParameterView, ReferenceOr,
    ReferenceOrView,
};
use vstd::prelude::*;

verus! {

/// What identifies a parameter within one operation.
#[derive(Debug)]
pub enum ParameterKey {
    Reference { reference: String },
    Named { name: String, location: ParameterLocation },
}

/// The mathematical content of a [`ParameterKey`].
pub enum ParameterKeyView {
    Reference { reference: Seq<char> },
    Named { name: Seq<char>, location: ParameterLocation },
}

impl View for ParameterKey {
    type V = ParameterKeyView;

    open spec fn view(&self) -> ParameterKeyView {
        match *self {
            ParameterKey::Reference { reference } => ParameterKeyView::Reference {
                reference: reference@,
            },
            ParameterKey::Named { name, location } => ParameterKeyView::Named {
                name: name@,
                location,
            },
        }
    }
}

/// The key of a parameter: its name and location, or its reference.
pub open spec fn parameter_key(parameter: ReferenceOrView<ParameterView>) -> ParameterKeyView {
    match parameter {
        ReferenceOrView::Reference { reference } => ParameterKeyView::Reference { reference },
        ReferenceOrView::Item(item) => ParameterKeyView::Named {
            name: item.name,
            location: item.location,
        },
    }
}

/// A list of parameters as keyed entries, in order.
pub open spec fn keyed_parameters(parameters: Seq<ReferenceOrView<ParameterView>>) -> Seq<
    (ParameterKeyView, ReferenceOrView<ParameterView>),
> {
    parameters.map_values(|parameter: ReferenceOrView<ParameterView>| (parameter_key(parameter), parameter))
}

impl ParameterKey {
    /// The key of `parameter`.
    pub fn of(parameter: &ReferenceOr<Parameter>) -> (key: Self)
        ensures
            key@ == parameter_key(parameter@),
    {
        match parameter {
            ReferenceOr::Reference { reference } => ParameterKey::Reference {
                reference: reference.clone(),
            },
            ReferenceOr::Item(item) => ParameterKey::Named {
                name: item.name.clone(),
                location: item.location,
            },
        }
    }
}

/// Whether two parameters have the same key.
pub fn same_parameter(a: &ReferenceOr<Parameter>, b: &ReferenceOr<Parameter>) -> (same: bool)
    ensures
        same == (parameter_key(a@) == parameter_key(b@)),
{
    match (a, b) {
        (ReferenceOr::Reference { reference: x }, ReferenceOr::Reference { reference: y }) => *x
            == *y,
        (ReferenceOr::Item(x), ReferenceOr::Item(y)) => x.name == y.name && x.location
            == y.location,
        _ => false,
    }
}

/// The first position of `parameters` that holds a parameter with the key of `wanted`.
pub fn find_parameter(parameters: &Vec<ReferenceOr<Parameter>>, wanted: &ReferenceOr<Parameter>) -> (found:
    Option<usize>)
    ensures
        match found {
            Some(i) => is_first_position(
                keyed_parameters(views_of(parameters@)),
                parameter_key(wanted@),
                i as int,
            ),
            None => !has_key(keyed_parameters(views_of(parameters@)), parameter_key(wanted@)),
        },
{
    let ghost entries = keyed_parameters(views_of(parameters@));
    let mut i: usize = 0;
    while i < parameters.len()
        invariant
            i <= parameters.len(),
            entries == keyed_parameters(views_of(parameters@)),
            forall|j: int| 0 <= j < i ==> (#[trigger] entries[j]).0 != parameter_key(wanted@),
        decreases parameters.len() - i,
    {
        if same_parameter(&parameters[i], wanted) {
            return Some(i);
        }
        i += 1;
    }
    None
}

/// What changed in one parameter that the base and the head both have.
#[derive(Debug)]
pub struct ParameterDiff {
    pub description: Option<OptionalStringDiff>,
    pub required: Option<BoolDiff>,
}

/// The mathematical content of a [`ParameterDiff`].
pub struct ParameterDiffView {
    pub description: Option<OptionalStringDiffView>,
    pub required: Option<BoolDiff>,
}

impl View for ParameterDiff {
    type V = ParameterDiffView;

    open spec fn view(&self) -> ParameterDiffView {
        ParameterDiffView { description: view_of(self.description), required: self.required }
    }
}

impl ParameterDiffView {
    /// Whether any attribute of the parameter changed.
    pub open spec fn has_changes(self) -> bool {
        self.description is Some || self.required is Some
    }
}

/// The diff of two parameters, attribute by attribute.
pub open spec fn parameter_diff(base: ParameterView, head: ParameterView) -> ParameterDiffView {
    ParameterDiffView {
        description: text_change(base.description, head.description),
        required: bool_change(base.required, head.required),
    }
}

/// The change between two parameters under one key: the diff of the two
/// where both are given in full and it has changes.
pub open spec fn parameter_change(
    base: ReferenceOrView<ParameterView>,
    head: ReferenceOrView<ParameterView>,
) -> Option<ParameterDiffView> {
    match (base, head) {
        (ReferenceOrView::Item(b), ReferenceOrView::Item(h)) => if parameter_diff(
            b,
            h,
        ).has_changes() {
            Some(parameter_diff(b, h))
        } else {
            None
        },
        _ => None,
    }
}

/// [`parameter_change`] as a value.
pub open spec fn parameter_change_fn() -> spec_fn(
    ReferenceOrView<ParameterView>,
    ReferenceOrView<ParameterView>,
) -> Option<ParameterDiffView> {
    |base: ReferenceOrView<ParameterView>, head: ReferenceOrView<ParameterView>|
        parameter_change(base, head)
}

impl ParameterDiff {
    /// Compares a parameter of the base with the parameter of the head that has its key.
    pub fn from_parameters(base: &Parameter, head: &Parameter) -> (diff: Self)
        ensures
            diff@ == parameter_diff(base@, head@),
    {
        ParameterDiff {
            description: OptionalStringDiff::from_strings(
                crate::openapi::copy_text(&base.description),
                crate::openapi::copy_text(&head.description),
            ),
            required: BoolDiff::from_bools(base.required, head.required),
        }
    }

    /// Whether any attribute of the parameter changed.
    pub fn has_changes(&self) -> (changed: bool)
        ensures
            changed == self@.has_changes(),
    {
        self.description.is_some() || self.required.is_some()
    }
}

/// The parameters that an operation gained, lost and changed.
#[derive(Debug)]
pub struct ParametersDiff {
    pub added: Vec<(ParameterKey, ReferenceOr<Parameter>)>,
    pub removed: Vec<(ParameterKey, ReferenceOr<Parameter>)>,
    pub changed: Vec<(ParameterKey, ParameterDiff)>,
}

/// The mathematical content of a [`ParametersDiff`].
pub struct ParametersDiffView {
    pub added: Seq<(ParameterKeyView, ReferenceOrView<ParameterView>)>,
    pub removed: Seq<(ParameterKeyView, ReferenceOrView<ParameterView>)>,
    pub changed: Seq<(ParameterKeyView, ParameterDiffView)>,
}

impl View for ParametersDiff {
    type V = ParametersDiffView;

    open spec fn view(&self) -> ParametersDiffView {
        ParametersDiffView {
            added: pairs_of(self.added@),
            removed: pairs_of(self.removed@),
            changed: pairs_of(self.changed@),
        }
    }
}

impl ParametersDiffView {
    /// Whether any parameter was added, removed or changed.
    pub open spec fn has_changes(self) -> bool {
        self.added.len() > 0 || self.removed.len() > 0 || self.changed.len() > 0
    }
}

/// The keyed collection diff of two lists of parameters.
pub open spec fn parameters_diff(
    base: Seq<ReferenceOrView<ParameterView>>,
    head: Seq<ReferenceOrView<ParameterView>>,
) -> ParametersDiffView {
    ParametersDiffView {
        added: only_in(keyed_parameters(head), keyed_parameters(base)),
        removed: only_in(keyed_parameters(base), keyed_parameters(head)),
        changed: changed_in(keyed_parameters(base), keyed_parameters(head), parameter_change_fn()),
    }
}

/// The parameters of `parameters` whose key `other` lacks, each with its key.
pub fn parameters_only_in(
    parameters: &Vec<ReferenceOr<Parameter>>,
    other: &Vec<ReferenceOr<Parameter>>,
) -> (kept: Vec<(ParameterKey, ReferenceOr<Parameter>)>)
    ensures
        pairs_of(kept@) == only_in(
            keyed_parameters(views_of(parameters@)),
            keyed_parameters(views_of(other@)),
        ),
{
    let ghost entries = keyed_parameters(views_of(parameters@));
    let ghost others = keyed_parameters(views_of(other@));
    let mut kept: Vec<(ParameterKey, ReferenceOr<Parameter>)> = Vec::new();
    let mut i: usize = 0;
    proof {
        reveal(Seq::filter);
        assert(pairs_of(kept@) =~= only_in(entries.take(0), others));
    }
    while i < parameters.len()
        invariant
            i <= parameters.len(),
            entries == keyed_parameters(views_of(parameters@)),
            others == keyed_parameters(views_of(other@)),
            pairs_of(kept@) == only_in(entries.take(i as int), others),
        decreases parameters.len() - i,
    {
        let ghost before = pairs_of(kept@);
        proof {
            lemma_only_in_step(entries, others, i as int);
        }
        if find_parameter(other, &parameters[i]).is_none() {
            kept.push((ParameterKey::of(&parameters[i]), parameters[i].clone()));
            assert(pairs_of(kept@) =~= before.push(entries[i as int]));
        }
        i += 1;
    }
    assert(entries.take(parameters@.len() as int) =~= entries);
    kept
}

impl ParametersDiff {
    /// Compares the parameters of the base with those of the head.
    pub fn from_params(
        base: &Vec<ReferenceOr<Parameter>>,
        head: &Vec<ReferenceOr<Parameter>>,
    ) -> (diff: Self)
        ensures
            diff@ == parameters_diff(views_of(base@), views_of(head@)),
    {
        let ghost b = keyed_parameters(views_of(base@));
        let ghost h = keyed_parameters(views_of(head@));
        let mut changed: Vec<(ParameterKey, ParameterDiff)> = Vec::new();
        let mut i: usize = 0;
        assert(pairs_of(changed@) =~= changed_in(b.take(0), h, parameter_change_fn()));
        while i < base.len()
            invariant
                i <= base.len(),
                b == keyed_parameters(views_of(base@)),
                h == keyed_parameters(views_of(head@)),
                pairs_of(changed@) == changed_in(b.take(i as int), h, parameter_change_fn()),
            decreases base.len() - i,
        {
            let ghost before = pairs_of(changed@);
            proof {
                lemma_changed_in_step(b, h, parameter_change_fn(), i as int);
            }
            match find_parameter(head, &base[i]) {
                Some(j) => {
                    proof {
                        lemma_first_position(h, b[i as int].0, j as int);
                    }
                    match (&base[i], &head[j]) {
                        (ReferenceOr::Item(base_item), ReferenceOr::Item(head_item)) => {
                            let diff = ParameterDiff::from_parameters(base_item, head_item);
                            if diff.has_changes() {
                                changed.push((ParameterKey::of(&base[i]), diff));
                                assert(pairs_of(changed@) =~= before.push(
                                    (b[i as int].0, parameter_diff(base_item@, head_item@)),
                                ));
                            }
                        },
                        _ => {},
                    }
                },
                None => {},
            }
            i += 1;
        }
        assert(b.take(base@.len() as int) =~= b);
        ParametersDiff {
            added: parameters_only_in(head, base),
            removed: parameters_only_in(base, head),
            changed,
        }
    }

    /// Whether any parameter was added, removed or changed.
    pub fn has_changes(&self) -> (changed: bool)
        ensures
            changed == self@.has_changes(),
    {
        !self.added.is_empty() || !self.removed.is_empty() || !self.changed.is_empty()
    }
}

} // verus!
