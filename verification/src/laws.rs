//! The library's laws: proved relations between the write path, the read
//! path and the migrator, stated over the same spec functions the
//! executable contracts use.

use vstd::prelude::*;

use crate::codec::{
    all_params_ok, columns_of, field_bind_err, field_param, row_aligned, tag_strict,
};
use crate::error::{spec_object_not_implemented, QueryErrorV};
use crate::migrate::{alter_supported, has_object_field};
use crate::types::{FieldV, Kind, ObjectDeltaV, ObjectTypeV};
use crate::value::{lookup, lookup_from, EntryV};

verus! {

/// Whether a structured value fully specifies a type: one entry per
/// field, in declaration order, each value in the field's native
/// representation.
pub open spec fn fully_specifies(t: ObjectTypeV, v: Seq<EntryV>) -> bool {
    v.len() == t.fields.len() && forall|i: int|
        0 <= i < v.len() ==> (#[trigger] v[i]).name == t.fields[i].name && tag_strict(
            t.fields[i].ty,
            v[i].value,
        )
}

proof fn lemma_lookup_from_at(v: Seq<EntryV>, k: int, idx: int)
    requires
        0 <= k <= idx < v.len(),
        forall|a: int| k <= a < idx ==> (#[trigger] v[a]).name != v[idx].name,
    ensures
        lookup_from(v, k, v[idx].name) == Option::Some(v[idx].value),
    decreases idx - k,
{
    if k < idx {
        lemma_lookup_from_at(v, k + 1, idx);
    }
}

/// In a sequence of entries with pairwise-distinct names, lookup of the
/// name at `idx` finds exactly the value at `idx`.
pub proof fn lemma_lookup_at(v: Seq<EntryV>, idx: int)
    requires
        0 <= idx < v.len(),
        forall|a: int, b: int| 0 <= a < b < v.len() ==> (#[trigger] v[a]).name != (#[trigger] v[b]).name,
    ensures
        lookup(v, v[idx].name) == Option::Some(v[idx].value),
{
    lemma_lookup_from_at(v, 0, idx);
}

/// The round-trip law.  For a well-formed type without object-valued
/// fields, a structured value that fully specifies the type binds
/// completely — the write path succeeds — and each bound parameter is the
/// input's own value at that field.  The row the store hands back for
/// such an insert carries exactly these parameters under the field
/// names, so it is the input value itself: it is aligned with the type's
/// columns, and the read path maps an aligned row to itself.
pub proof fn lemma_write_read_round_trip(t: ObjectTypeV, v: Seq<EntryV>)
    requires
        t.wf(),
        fully_specifies(t, v),
    ensures
        all_params_ok(t, v),
        forall|i: int|
            0 <= i < t.fields.len() ==> field_param(t.fields[i], v) == Option::Some(
                (#[trigger] v[i]).value,
            ),
        row_aligned(columns_of(t), v),
{
    assert forall|a: int, b: int| 0 <= a < b < v.len() implies (#[trigger] v[a]).name != (
    #[trigger] v[b]).name by {
        assert(v[a].name == t.fields[a].name);
        assert(v[b].name == t.fields[b].name);
    }
    assert forall|i: int| 0 <= i < t.fields.len() implies field_param(t.fields[i], v)
        == Option::Some((#[trigger] v[i]).value) by {
        lemma_lookup_at(v, i);
        assert(lookup(v, t.fields[i].name) == Option::Some(v[i].value));
        assert(tag_strict(t.fields[i].ty, v[i].value));
        assert(!(t.fields[i].ty is Object));
    }
    assert forall|i: int| 0 <= i < t.fields.len() implies (#[trigger] field_param(
        t.fields[i],
        v,
    )) is Some by {
        assert(field_param(t.fields[i], v) == Option::Some(v[i].value));
    }
    assert forall|i: int| 0 <= i < columns_of(t).len() implies !((#[trigger] columns_of(
        t,
    )[i].ty) is Object) && tag_strict(columns_of(t)[i].ty, v[i].value) by {
        assert(tag_strict(t.fields[i].ty, v[i].value));
    }
}

/// The type that results from an add-only delta: the old fields followed
/// by the added ones.
pub open spec fn extended_type(t: ObjectTypeV, added: Seq<FieldV>) -> ObjectTypeV {
    ObjectTypeV { name: t.name, backing_table: t.backing_table, fields: t.fields + added }
}

/// Every delta's operations — column additions and column drops — are
/// expressible on every supported dialect, so an alteration never fails
/// for want of dialect capability.
pub proof fn lemma_alter_always_supported(k: Kind, d: ObjectDeltaV)
    ensures
        alter_supported(k, d),
{
}

/// The add-only delta law.  A delta that only adds fields succeeds on
/// every dialect, and the evolved table accepts rows that supply the new
/// fields: a value that fully specifies the extended type binds
/// completely.
pub proof fn lemma_add_only_delta(k: Kind, t: ObjectTypeV, d: ObjectDeltaV, v: Seq<EntryV>)
    requires
        d.removed.len() == 0,
        !has_object_field(d.added),
        extended_type(t, d.added).wf(),
        fully_specifies(extended_type(t, d.added), v),
    ensures
        alter_supported(k, d),
        all_params_ok(extended_type(t, d.added), v),
{
    lemma_write_read_round_trip(extended_type(t, d.added), v);
}

/// The remove-only delta law.  A delta that only removes fields succeeds
/// on every dialect; inserts are always planned from the current type, so
/// after the removal they can only supply the remaining fields, and a
/// value that fully specifies the reduced type still binds completely.
pub proof fn lemma_remove_only_delta(k: Kind, t2: ObjectTypeV, d: ObjectDeltaV, v: Seq<EntryV>)
    requires
        d.added.len() == 0,
        t2.wf(),
        fully_specifies(t2, v),
    ensures
        alter_supported(k, d),
        all_params_ok(t2, v),
{
    lemma_write_read_round_trip(t2, v);
}

/// The object-rejection law.  A type with an object-valued field can
/// never persist a row: no structured value binds completely, and for the
/// object-valued field itself the reported error is `NotImplemented`,
/// never another kind.
pub proof fn lemma_object_field_never_persisted(t: ObjectTypeV, v: Seq<EntryV>)
    requires
        has_object_field(t.fields),
    ensures
        !all_params_ok(t, v),
        forall|i: int|
            0 <= i < t.fields.len() && (#[trigger] t.fields[i].ty) is Object ==> field_param(
                t.fields[i],
                v,
            ) is None && field_bind_err(t.fields[i], v, t.name) == spec_object_not_implemented(),
{
    let i = choose|i: int| 0 <= i < t.fields.len() && (#[trigger] t.fields[i].ty) is Object;
    assert(field_param(t.fields[i], v) is None);
}

/// The missing-required-field law.  A field that the input does not
/// supply and that has no default cannot be bound: the write path fails,
/// and the error is `IncompatibleData` naming that field and the owning
/// type.
pub proof fn lemma_missing_field_rejected(t: ObjectTypeV, v: Seq<EntryV>, i: int)
    requires
        0 <= i < t.fields.len(),
        lookup(v, t.fields[i].name) is None,
        t.fields[i].default_value is None,
    ensures
        !all_params_ok(t, v),
        field_param(t.fields[i], v) is None,
        !(t.fields[i].ty is Object) ==> field_bind_err(t.fields[i], v, t.name)
            == QueryErrorV::IncompatibleData(t.fields[i].name, t.name),
{
}

} // verus!
