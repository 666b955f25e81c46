//! Type IDs of the log types.

use vstd::prelude::*;

use crate::primitives::TypeId;

verus! {

pub const DEPOSIT_LOG_TYPE_ID: TypeId = 1;

pub const FORCED_INCLUSION_LOG_TYPE_ID: TypeId = 2;

pub const CHECKPOINT_UPDATE_LOG_TYPE: TypeId = 3;

pub const OL_STF_UPDATE_LOG_TYPE: TypeId = 4;

pub const ASM_STF_UPDATE_LOG_TYPE: TypeId = 5;

pub const NEW_EXPORT_ENTRY_LOG_TYPE: TypeId = 6;

/// The defined log type IDs, in order of definition.
pub open spec fn spec_all_type_ids() -> Seq<TypeId> {
    seq![
        DEPOSIT_LOG_TYPE_ID,
        FORCED_INCLUSION_LOG_TYPE_ID,
        CHECKPOINT_UPDATE_LOG_TYPE,
        OL_STF_UPDATE_LOG_TYPE,
        ASM_STF_UPDATE_LOG_TYPE,
        NEW_EXPORT_ENTRY_LOG_TYPE,
    ]
}

/// All defined log type IDs.
pub fn all_type_ids() -> (r: Vec<TypeId>)
    ensures
        r@ == spec_all_type_ids(),
{
    let r = vec![
        DEPOSIT_LOG_TYPE_ID,
        FORCED_INCLUSION_LOG_TYPE_ID,
        CHECKPOINT_UPDATE_LOG_TYPE,
        OL_STF_UPDATE_LOG_TYPE,
        ASM_STF_UPDATE_LOG_TYPE,
        NEW_EXPORT_ENTRY_LOG_TYPE,
    ];
    assert(r@ =~= spec_all_type_ids());
    r
}

/// No two log types share a type ID.
pub proof fn lemma_type_ids_unique()
    ensures
        spec_all_type_ids().no_duplicates(),
{
    let s = spec_all_type_ids();
    assert forall|i: int, j: int| 0 <= i < s.len() && 0 <= j < s.len() && i != j implies s[i]
        != s[j] by {}
}

} // verus!
