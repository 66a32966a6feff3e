//! The lists of functions that the prover knows by name, written out by their names, and
//! the laws that the sets of native functions (deterministic, never aborting, intrinsic,
//! used as functions) are made of exactly these functions.

use vstd::prelude::*;

use crate::env::GlobalEnv;
use crate::model::{FunId, QualifiedId};
use crate::natives::{
    deterministic_extra_funs, deterministic_prover_funs, ghost_funs, in_module, intrinsic_funs, log_funs, native_funs_head, native_funs_tail, no_abort_extra_funs, no_abort_prover_funs, prover_ext_funs, prover_lambda_funs, vector_ext_native_funs, vector_ext_pure_funs, vector_iter_funs,
};

verus! {

/// The functions of the prover module that are deterministic.
pub open spec fn listed_deterministic_prover_funs() -> Seq<Seq<char>> {
    seq![
        "requires"@,
        "ensures"@,
        "asserts"@,
        "asserts_of"@,
        "boogie_split_here"@,
        "boogie_focus"@,
        "boogie_allow_path_isolation"@,
        "invariant_begin"@,
        "invariant_end"@,
        "val"@,
        "ref"@,
    ]
}

/// The lambda functions of the prover module that come with its vector modules.
pub open spec fn listed_prover_lambda_funs() -> Seq<Seq<char>> {
    seq![
        "begin_forall_lambda"@,
        "end_forall_lambda"@,
        "begin_exists_lambda"@,
        "end_exists_lambda"@,
    ]
}

/// The functions of the prover's vector iteration module.
pub open spec fn listed_vector_iter_funs() -> Seq<Seq<char>> {
    seq![
        "begin_map_lambda"@,
        "begin_map_range_lambda"@,
        "end_map_lambda"@,
        "begin_filter_lambda"@,
        "begin_filter_range_lambda"@,
        "end_filter_lambda"@,
        "begin_find_lambda"@,
        "begin_find_range_lambda"@,
        "end_find_lambda"@,
        "begin_find_index_lambda"@,
        "begin_find_index_range_lambda"@,
        "end_find_index_lambda"@,
        "begin_find_indices_lambda"@,
        "begin_find_indices_range_lambda"@,
        "end_find_indices_lambda"@,
        "begin_count_lambda"@,
        "begin_count_range_lambda"@,
        "end_count_lambda"@,
        "begin_any_lambda"@,
        "begin_any_range_lambda"@,
        "end_any_lambda"@,
        "begin_all_lambda"@,
        "begin_all_range_lambda"@,
        "end_all_lambda"@,
        "begin_sum_map_lambda"@,
        "begin_sum_map_range_lambda"@,
        "end_sum_map_lambda"@,
        "begin_range_map_lambda"@,
        "end_range_map_lambda"@,
        "begin_range_count_lambda"@,
        "end_range_count_lambda"@,
        "begin_range_sum_map_lambda"@,
        "end_range_sum_map_lambda"@,
        "range"@,
        "sum"@,
        "sum_range"@,
        "slice"@,
    ]
}

/// The pure functions of the prover's vector extension module.
pub open spec fn listed_vector_ext_pure_funs() -> Seq<Seq<char>> {
    seq![
        "append_pure"@,
        "push_back_pure"@,
        "pop_back_pure"@,
        "push_front_pure"@,
        "pop_front_pure"@,
        "insert_pure"@,
        "remove_pure"@,
    ]
}

/// The functions of the prover's extension modules, with their modules.
pub open spec fn listed_prover_ext_funs() -> Seq<(Seq<char>, Seq<char>)> {
    seq![
        ("vector_ext"@, "borrow_or_unknown"@),
        ("vec_set_ext"@, "insert_pure"@),
        ("vec_set_ext"@, "remove_pure"@),
        ("vec_map_ext"@, "get_or_unknown"@),
        ("vec_map_ext"@, "get_idx_or_unknown"@),
        ("vec_map_ext"@, "get_entry_by_idx_or_unknown"@),
        ("vec_map_ext"@, "insert_pure"@),
        ("vec_map_ext"@, "remove_pure"@),
        ("table_ext"@, "borrow_or_unknown"@),
        ("table_ext"@, "add_pure"@),
        ("table_ext"@, "remove_pure"@),
        ("object_table_ext"@, "borrow_or_unknown"@),
        ("object_table_ext"@, "add_pure"@),
        ("object_table_ext"@, "remove_pure"@),
        ("dynamic_field_ext"@, "borrow_or_unknown"@),
        ("dynamic_object_field_ext"@, "borrow_or_unknown"@),
    ]
}

/// The functions of the ghost module.
pub open spec fn listed_ghost_funs() -> Seq<Seq<char>> {
    seq![
        "global"@,
        "global_set"@,
        "borrow_mut"@,
        "declare_global"@,
        "declare_global_mut"@,
        "havoc_global"@,
    ]
}

/// The functions of the log module.
pub open spec fn listed_log_funs() -> Seq<Seq<char>> {
    seq![
        "text"@,
        "var"@,
        "ghost"@,
    ]
}

/// The native functions of the standard and Sui modules that are deterministic, with their modules.
pub open spec fn listed_deterministic_extra_funs() -> Seq<(Seq<char>, Seq<char>)> {
    seq![
        ("vector"@, "empty"@),
        ("vector"@, "length"@),
        ("vector"@, "borrow"@),
        ("vector"@, "push_back"@),
        ("vector"@, "borrow_mut"@),
        ("vector"@, "pop_back"@),
        ("vector"@, "destroy_empty"@),
        ("vector"@, "swap"@),
        ("vector"@, "singleton"@),
        ("hash"@, "sha2_256"@),
        ("hash"@, "sha3_256"@),
        ("bcs"@, "to_bytes"@),
        ("debug"@, "print"@),
        ("debug"@, "print_stack_trace"@),
        ("type_name"@, "with_defining_ids"@),
        ("type_name"@, "with_original_ids"@),
        ("type_name"@, "defining_id"@),
        ("type_name"@, "original_id"@),
        ("string"@, "internal_check_utf8"@),
        ("string"@, "internal_is_char_boundary"@),
        ("string"@, "internal_sub_string"@),
        ("string"@, "internal_index_of"@),
        ("integer"@, "from_u8"@),
        ("integer"@, "from_u16"@),
        ("integer"@, "from_u32"@),
        ("integer"@, "from_u64"@),
        ("integer"@, "from_u128"@),
        ("integer"@, "from_u256"@),
        ("integer"@, "to_u8"@),
        ("integer"@, "to_u16"@),
        ("integer"@, "to_u32"@),
        ("integer"@, "to_u64"@),
        ("integer"@, "to_u128"@),
        ("integer"@, "to_u256"@),
        ("integer"@, "add"@),
        ("integer"@, "sub"@),
        ("integer"@, "neg"@),
        ("integer"@, "mul"@),
        ("integer"@, "div"@),
        ("integer"@, "mod"@),
        ("integer"@, "sqrt"@),
        ("integer"@, "pow"@),
        ("integer"@, "bit_or"@),
        ("integer"@, "bit_and"@),
        ("integer"@, "bit_xor"@),
        ("integer"@, "bit_not"@),
        ("integer"@, "lt"@),
        ("integer"@, "gt"@),
        ("integer"@, "lte"@),
        ("integer"@, "gte"@),
        ("real"@, "from_integer"@),
        ("real"@, "to_integer"@),
        ("real"@, "add"@),
        ("real"@, "sub"@),
        ("real"@, "neg"@),
        ("real"@, "mul"@),
        ("real"@, "div"@),
        ("real"@, "sqrt"@),
        ("real"@, "exp"@),
        ("real"@, "lt"@),
        ("real"@, "gt"@),
        ("real"@, "lte"@),
        ("real"@, "gte"@),
        ("address"@, "to_u256"@),
        ("address"@, "from_u256"@),
        ("address"@, "from_bytes"@),
        ("types"@, "is_one_time_witness"@),
        ("object"@, "borrow_uid"@),
        ("object"@, "delete_impl"@),
        ("object"@, "record_new_uid"@),
        ("dynamic_field"@, "hash_type_and_key"@),
        ("dynamic_field"@, "add_child_object"@),
        ("dynamic_field"@, "borrow_child_object"@),
        ("dynamic_field"@, "borrow_child_object_mut"@),
        ("dynamic_field"@, "remove_child_object"@),
        ("dynamic_field"@, "has_child_object"@),
        ("dynamic_field"@, "has_child_object_with_ty"@),
        ("tx_context"@, "native_sender"@),
        ("tx_context"@, "native_epoch"@),
        ("tx_context"@, "native_epoch_timestamp_ms"@),
        ("tx_context"@, "native_rgp"@),
        ("tx_context"@, "native_gas_price"@),
        ("tx_context"@, "native_gas_budget"@),
        ("tx_context"@, "native_sponsor"@),
        ("tx_context"@, "replace"@),
        ("tx_context"@, "derive_id"@),
        ("hash"@, "blake2b256"@),
        ("hash"@, "keccak256"@),
        ("hmac"@, "hmac_sha3_256"@),
        ("ed25519"@, "ed25519_verify"@),
        ("ecvrf"@, "ecvrf_verify"@),
        ("ecdsa_r1"@, "secp256r1_ecrecover"@),
        ("ecdsa_r1"@, "secp256r1_verify"@),
        ("ecdsa_k1"@, "secp256k1_ecrecover"@),
        ("ecdsa_k1"@, "decompress_pubkey"@),
        ("ecdsa_k1"@, "secp256k1_verify"@),
        ("ecdsa_k1"@, "secp256k1_sign"@),
        ("ecdsa_k1"@, "secp256k1_keypair_from_seed"@),
        ("bls12381"@, "bls12381_min_sig_verify"@),
        ("bls12381"@, "bls12381_min_pk_verify"@),
        ("group_ops"@, "internal_validate"@),
        ("group_ops"@, "internal_add"@),
        ("group_ops"@, "internal_sub"@),
        ("group_ops"@, "internal_mul"@),
        ("group_ops"@, "internal_div"@),
        ("group_ops"@, "internal_hash_to"@),
        ("group_ops"@, "internal_multi_scalar_mul"@),
        ("group_ops"@, "internal_pairing"@),
        ("group_ops"@, "internal_convert"@),
        ("group_ops"@, "internal_sum"@),
        ("groth16"@, "prepare_verifying_key_internal"@),
        ("groth16"@, "verify_groth16_proof_internal"@),
        ("poseidon"@, "poseidon_bn254_internal"@),
        ("vdf"@, "hash_to_input_internal"@),
        ("vdf"@, "vdf_verify_internal"@),
        ("nitro_attestation"@, "load_nitro_attestation_internal"@),
    ]
}

/// The functions of the prover module that never abort.
pub open spec fn listed_no_abort_prover_funs() -> Seq<Seq<char>> {
    seq![
        "asserts_of"@,
        "boogie_split_here"@,
        "boogie_focus"@,
        "boogie_allow_path_isolation"@,
    ]
}

/// The native functions of the standard and Sui modules that never abort, with their modules.
pub open spec fn listed_no_abort_extra_funs() -> Seq<(Seq<char>, Seq<char>)> {
    seq![
        ("vector"@, "empty"@),
        ("vector"@, "length"@),
        ("vector"@, "is_empty"@),
        ("vector"@, "contains"@),
        ("vector"@, "index_of"@),
        ("vector"@, "singleton"@),
        ("hash"@, "sha2_256"@),
        ("hash"@, "sha3_256"@),
        ("bcs"@, "to_bytes"@),
        ("debug"@, "print"@),
        ("debug"@, "print_stack_trace"@),
        ("type_name"@, "with_defining_ids"@),
        ("type_name"@, "with_original_ids"@),
        ("type_name"@, "defining_id"@),
        ("type_name"@, "original_id"@),
        ("string"@, "internal_check_utf8"@),
        ("string"@, "internal_is_char_boundary"@),
        ("string"@, "internal_sub_string"@),
        ("string"@, "internal_index_of"@),
        ("integer"@, "from_u8"@),
        ("integer"@, "from_u16"@),
        ("integer"@, "from_u32"@),
        ("integer"@, "from_u64"@),
        ("integer"@, "from_u128"@),
        ("integer"@, "from_u256"@),
        ("integer"@, "add"@),
        ("integer"@, "sub"@),
        ("integer"@, "neg"@),
        ("integer"@, "mul"@),
        ("integer"@, "bit_or"@),
        ("integer"@, "bit_and"@),
        ("integer"@, "bit_xor"@),
        ("integer"@, "bit_not"@),
        ("integer"@, "lt"@),
        ("integer"@, "gt"@),
        ("integer"@, "lte"@),
        ("integer"@, "gte"@),
        ("real"@, "from_integer"@),
        ("real"@, "to_integer"@),
        ("real"@, "add"@),
        ("real"@, "sub"@),
        ("real"@, "neg"@),
        ("real"@, "mul"@),
        ("real"@, "lt"@),
        ("real"@, "gt"@),
        ("real"@, "lte"@),
        ("real"@, "gte"@),
        ("vec_set"@, "get_idx_opt"@),
        ("vec_set"@, "contains"@),
        ("vec_map"@, "get_idx_opt"@),
        ("vec_map"@, "contains"@),
        ("vec_map"@, "into_keys_values"@),
        ("vec_map"@, "keys"@),
        ("table"@, "is_empty"@),
        ("table"@, "length"@),
        ("table"@, "contains"@),
        ("object_table"@, "is_empty"@),
        ("object_table"@, "length"@),
        ("object_table"@, "contains"@),
        ("dynamic_field"@, "exists"@),
        ("dynamic_field"@, "exists_with_type"@),
        ("dynamic_object_field"@, "exists"@),
        ("dynamic_object_field"@, "exists_with_type"@),
        ("address"@, "to_u256"@),
        ("accumulator"@, "emit_deposit_event"@),
        ("accumulator"@, "emit_withdraw_event"@),
        ("event"@, "emit"@),
        ("tx_context"@, "native_sender"@),
        ("tx_context"@, "native_epoch"@),
        ("tx_context"@, "native_epoch_timestamp_ms"@),
        ("tx_context"@, "fresh_id"@),
        ("tx_context"@, "native_rgp"@),
        ("tx_context"@, "native_gas_price"@),
        ("tx_context"@, "native_ids_created"@),
        ("tx_context"@, "native_gas_budget"@),
        ("tx_context"@, "last_created_id"@),
        ("tx_context"@, "native_sponsor"@),
        ("tx_context"@, "replace"@),
        ("tx_context"@, "derive_id"@),
        ("ecdsa_k1"@, "secp256k1_verify"@),
        ("ecdsa_k1"@, "secp256k1_sign"@),
        ("ecdsa_r1"@, "secp256r1_verify"@),
        ("ed25519"@, "ed25519_verify"@),
        ("bls12381"@, "bls12381_min_sig_verify"@),
        ("bls12381"@, "bls12381_min_pk_verify"@),
        ("types"@, "is_one_time_witness"@),
        ("object"@, "borrow_uid"@),
        ("object"@, "delete_impl"@),
        ("object"@, "record_new_uid"@),
        ("hash"@, "blake2b256"@),
        ("hash"@, "keccak256"@),
        ("hmac"@, "hmac_sha3_256"@),
        ("group_ops"@, "internal_validate"@),
        ("group_ops"@, "internal_add"@),
        ("group_ops"@, "internal_sub"@),
        ("group_ops"@, "internal_mul"@),
        ("group_ops"@, "internal_div"@),
        ("group_ops"@, "internal_hash_to"@),
        ("group_ops"@, "internal_multi_scalar_mul"@),
        ("group_ops"@, "internal_pairing"@),
        ("group_ops"@, "internal_convert"@),
        ("group_ops"@, "internal_sum"@),
        ("vdf"@, "hash_to_input_internal"@),
        ("vdf"@, "vdf_verify_internal"@),
        ("nitro_attestation"@, "load_nitro_attestation_internal"@),
    ]
}

/// The functions that the prover treats as intrinsic, with their modules.
pub open spec fn listed_intrinsic_funs() -> Seq<(Seq<char>, Seq<char>)> {
    seq![
        ("vector"@, "reverse"@),
        ("vector"@, "append"@),
        ("vector"@, "is_empty"@),
        ("vector"@, "contains"@),
        ("vector"@, "index_of"@),
        ("vector"@, "remove"@),
        ("vector"@, "insert"@),
        ("vector"@, "swap_remove"@),
        ("vector"@, "take"@),
        ("vector"@, "skip"@),
        ("vector"@, "singleton"@),
        ("vec_set"@, "get_idx_opt"@),
        ("vec_set"@, "from_keys"@),
        ("vec_set"@, "contains"@),
        ("vec_set"@, "remove"@),
        ("vec_map"@, "get"@),
        ("vec_map"@, "get_idx"@),
        ("vec_map"@, "get_idx_opt"@),
        ("vec_map"@, "contains"@),
        ("vec_map"@, "from_keys_values"@),
        ("vec_map"@, "into_keys_values"@),
        ("vec_map"@, "keys"@),
        ("vec_map"@, "remove"@),
        ("table"@, "new"@),
        ("table"@, "add"@),
        ("table"@, "borrow"@),
        ("table"@, "borrow_mut"@),
        ("table"@, "remove"@),
        ("table"@, "contains"@),
        ("table"@, "length"@),
        ("table"@, "is_empty"@),
        ("table"@, "destroy_empty"@),
        ("table"@, "drop"@),
        ("object_table"@, "new"@),
        ("object_table"@, "add"@),
        ("object_table"@, "borrow"@),
        ("object_table"@, "borrow_mut"@),
        ("object_table"@, "remove"@),
        ("object_table"@, "contains"@),
        ("object_table"@, "length"@),
        ("object_table"@, "is_empty"@),
        ("object_table"@, "destroy_empty"@),
        ("object_table"@, "value_id"@),
        ("dynamic_field"@, "add"@),
        ("dynamic_field"@, "borrow"@),
        ("dynamic_field"@, "borrow_mut"@),
        ("dynamic_field"@, "remove"@),
        ("dynamic_field"@, "exists"@),
        ("dynamic_field"@, "remove_opt"@),
        ("dynamic_field"@, "exists_with_type"@),
        ("dynamic_object_field"@, "add"@),
        ("dynamic_object_field"@, "borrow"@),
        ("dynamic_object_field"@, "borrow_mut"@),
        ("dynamic_object_field"@, "remove"@),
        ("dynamic_object_field"@, "exists"@),
        ("dynamic_object_field"@, "exists_with_type"@),
        ("table_ext"@, "borrow_or_unknown"@),
        ("object_table_ext"@, "borrow_or_unknown"@),
        ("dynamic_field_ext"@, "borrow_or_unknown"@),
        ("dynamic_object_field_ext"@, "borrow_or_unknown"@),
        ("table_ext"@, "add_pure"@),
        ("table_ext"@, "remove_pure"@),
        ("object_table_ext"@, "add_pure"@),
        ("object_table_ext"@, "remove_pure"@),
    ]
}

/// The native functions used as functions, with their modules: those before the vector extension ones.
pub open spec fn listed_native_funs_head() -> Seq<(Seq<char>, Seq<char>)> {
    seq![
        ("integer"@, "from_u8"@),
        ("integer"@, "from_u16"@),
        ("integer"@, "from_u32"@),
        ("integer"@, "from_u64"@),
        ("integer"@, "from_u128"@),
        ("integer"@, "from_u256"@),
        ("integer"@, "to_u8"@),
        ("integer"@, "to_u16"@),
        ("integer"@, "to_u32"@),
        ("integer"@, "to_u64"@),
        ("integer"@, "to_u128"@),
        ("integer"@, "to_u256"@),
        ("integer"@, "add"@),
        ("integer"@, "sub"@),
        ("integer"@, "neg"@),
        ("integer"@, "mul"@),
        ("integer"@, "div"@),
        ("integer"@, "mod"@),
        ("integer"@, "sqrt"@),
        ("integer"@, "pow"@),
        ("integer"@, "bit_or"@),
        ("integer"@, "bit_and"@),
        ("integer"@, "bit_xor"@),
        ("integer"@, "bit_not"@),
        ("integer"@, "lt"@),
        ("integer"@, "gt"@),
        ("integer"@, "lte"@),
        ("integer"@, "gte"@),
        ("real"@, "from_integer"@),
        ("real"@, "to_integer"@),
        ("real"@, "add"@),
        ("real"@, "sub"@),
        ("real"@, "neg"@),
        ("real"@, "mul"@),
        ("real"@, "div"@),
        ("real"@, "sqrt"@),
        ("real"@, "exp"@),
        ("real"@, "lt"@),
        ("real"@, "gt"@),
        ("real"@, "lte"@),
        ("real"@, "gte"@),
        ("bcs"@, "to_bytes"@),
        ("vector"@, "empty"@),
        ("vector"@, "is_empty"@),
        ("vector"@, "length"@),
        ("vector"@, "contains"@),
        ("vector"@, "push_back"@),
        ("vector"@, "append"@),
        ("vector"@, "reverse"@),
        ("vector"@, "singleton"@),
        ("vec_set"@, "contains"@),
        ("vec_map"@, "contains"@),
        ("vec_map"@, "get_idx_opt"@),
        ("vec_map"@, "keys"@),
        ("vector_iter"@, "slice"@),
        ("vector_ext"@, "append_pure"@),
    ]
}

/// The native functions used as functions, with their modules: those after the vector extension ones.
pub open spec fn listed_native_funs_tail() -> Seq<(Seq<char>, Seq<char>)> {
    seq![
        ("vector_ext"@, "borrow_or_unknown"@),
        ("vector_iter"@, "sum"@),
        ("vector_iter"@, "sum_range"@),
        ("vector_iter"@, "range"@),
        ("vec_set_ext"@, "insert_pure"@),
        ("vec_set_ext"@, "remove_pure"@),
        ("vec_map_ext"@, "get_or_unknown"@),
        ("vec_map_ext"@, "get_idx_or_unknown"@),
        ("vec_map_ext"@, "insert_pure"@),
        ("vec_map_ext"@, "remove_pure"@),
        ("table"@, "is_empty"@),
        ("table"@, "length"@),
        ("table"@, "contains"@),
        ("object_table"@, "is_empty"@),
        ("object_table"@, "length"@),
        ("object_table"@, "contains"@),
        ("table_ext"@, "borrow_or_unknown"@),
        ("table_ext"@, "add_pure"@),
        ("table_ext"@, "remove_pure"@),
        ("object_table_ext"@, "borrow_or_unknown"@),
        ("object_table_ext"@, "add_pure"@),
        ("object_table_ext"@, "remove_pure"@),
        ("dynamic_field"@, "exists"@),
        ("dynamic_field"@, "exists_with_type"@),
        ("dynamic_object_field"@, "exists"@),
        ("dynamic_object_field"@, "exists_with_type"@),
        ("dynamic_field_ext"@, "borrow_or_unknown"@),
        ("dynamic_object_field_ext"@, "borrow_or_unknown"@),
        ("object"@, "borrow_uid"@),
        ("tx_context"@, "native_sender"@),
        ("tx_context"@, "native_epoch"@),
        ("tx_context"@, "native_epoch_timestamp_ms"@),
        ("tx_context"@, "native_rgp"@),
        ("tx_context"@, "native_gas_price"@),
        ("type_name"@, "with_defining_ids"@),
        ("type_name"@, "with_original_ids"@),
        ("type_name"@, "defining_id"@),
        ("type_name"@, "original_id"@),
    ]
}

/// The functions of the prover's vector extension module used as functions.
pub open spec fn listed_vector_ext_native_funs() -> Seq<Seq<char>> {
    seq![
        "push_back_pure"@,
        "pop_back_pure"@,
        "push_front_pure"@,
        "pop_front_pure"@,
        "insert_pure"@,
        "remove_pure"@,
    ]
}

/// The lists behind the sets of natives are the lists written out above.
proof fn lemma_lists_written_out()
    ensures
        deterministic_prover_funs() == listed_deterministic_prover_funs(),
        prover_lambda_funs() == listed_prover_lambda_funs(),
        vector_iter_funs() == listed_vector_iter_funs(),
        vector_ext_pure_funs() == listed_vector_ext_pure_funs(),
        prover_ext_funs() == listed_prover_ext_funs(),
        ghost_funs() == listed_ghost_funs(),
        log_funs() == listed_log_funs(),
        deterministic_extra_funs() == listed_deterministic_extra_funs(),
        no_abort_prover_funs() == listed_no_abort_prover_funs(),
        no_abort_extra_funs() == listed_no_abort_extra_funs(),
        intrinsic_funs() == listed_intrinsic_funs(),
        native_funs_head() == listed_native_funs_head(),
        native_funs_tail() == listed_native_funs_tail(),
        vector_ext_native_funs() == listed_vector_ext_native_funs(),
{
    assert(deterministic_prover_funs() =~= listed_deterministic_prover_funs());
    assert(prover_lambda_funs() =~= listed_prover_lambda_funs());
    assert(vector_iter_funs() =~= listed_vector_iter_funs());
    assert(vector_ext_pure_funs() =~= listed_vector_ext_pure_funs());
    assert(prover_ext_funs() =~= listed_prover_ext_funs());
    assert(ghost_funs() =~= listed_ghost_funs());
    assert(log_funs() =~= listed_log_funs());
    assert(deterministic_extra_funs() =~= listed_deterministic_extra_funs());
    assert(no_abort_prover_funs() =~= listed_no_abort_prover_funs());
    assert(no_abort_extra_funs() =~= listed_no_abort_extra_funs());
    assert(intrinsic_funs() =~= listed_intrinsic_funs());
    assert(native_funs_head() =~= listed_native_funs_head());
    assert(native_funs_tail() =~= listed_native_funs_tail());
    assert(vector_ext_native_funs() =~= listed_vector_ext_native_funs());
}

/// The functions of the prover's vector modules, where a module named `vector_iter`
/// declares functions: the lambda functions of `prover`, the functions of `vector_iter` and
/// the pure functions of `vector_ext`; none elsewhere.
pub open spec fn listed_prover_vector_qids(env: GlobalEnv) -> Set<QualifiedId<FunId>> {
    if env.has_module("vector_iter"@) {
        env.fun_qids(in_module("prover"@, listed_prover_lambda_funs())) + env.fun_qids(
            in_module("vector_iter"@, listed_vector_iter_funs()),
        ) + env.fun_qids(in_module("vector_ext"@, listed_vector_ext_pure_funs()))
    } else {
        Set::empty()
    }
}

/// The deterministic natives are the listed functions of the `prover` module, those of the
/// prover's vector modules where there are any, the listed functions of the prover's
/// extension modules that the environment declares, the functions of the `ghost` and `log`
/// modules, and the listed functions of the standard and Sui modules that the environment
/// declares. So every listed function of a standard or Sui module that the environment
/// declares, such as `hash::sha2_256`, is deterministic.
pub proof fn lemma_deterministic_natives_listed(env: GlobalEnv)
    ensures
        env.deterministic_natives() == env.fun_qids(
            in_module("prover"@, listed_deterministic_prover_funs()),
        ) + listed_prover_vector_qids(env) + env.opt_qids(listed_prover_ext_funs()) + env.fun_qids(
            in_module("ghost"@, listed_ghost_funs()),
        ) + env.fun_qids(in_module("log"@, listed_log_funs())) + env.opt_qids(
            listed_deterministic_extra_funs(),
        ),
        forall|q: QualifiedId<FunId>, k: int|
            0 <= k < listed_deterministic_extra_funs().len() && #[trigger] env.finds_qid(
                q,
                listed_deterministic_extra_funs()[k].0,
                listed_deterministic_extra_funs()[k].1,
            ) ==> env.deterministic_natives().contains(q),
        forall|q: QualifiedId<FunId>, k: int|
            0 <= k < listed_prover_ext_funs().len() && #[trigger] env.finds_qid(
                q,
                listed_prover_ext_funs()[k].0,
                listed_prover_ext_funs()[k].1,
            ) ==> env.deterministic_natives().contains(q),
{
    lemma_lists_written_out();
    assert(env.prover_vector_qids() == listed_prover_vector_qids(env));
    let extra = listed_deterministic_extra_funs();
    let ext = listed_prover_ext_funs();
    assert forall|q: QualifiedId<FunId>, k: int|
        0 <= k < extra.len() && #[trigger] env.finds_qid(q, extra[k].0, extra[k].1) implies env.deterministic_natives().contains(q) by {
        assert(env.opt_qids(extra).contains(q));
    }
    assert forall|q: QualifiedId<FunId>, k: int|
        0 <= k < ext.len() && #[trigger] env.finds_qid(q, ext[k].0, ext[k].1) implies env.deterministic_natives().contains(q) by {
        assert(env.opt_qids(ext).contains(q));
    }
}

/// The natives that never abort are the listed functions of the `prover` module that never
/// abort, the functions of the `ghost` module, those of the prover's vector modules where
/// there are any, the listed functions of the prover's extension modules that the environment
/// declares, the functions of the `log` module, and the listed functions of the standard and
/// Sui modules that never abort and that the environment declares.
pub proof fn lemma_no_aborting_natives_listed(env: GlobalEnv)
    ensures
        env.no_aborting_natives() == env.fun_qids(
            in_module("prover"@, listed_no_abort_prover_funs()),
        ) + env.fun_qids(in_module("ghost"@, listed_ghost_funs())) + listed_prover_vector_qids(env)
            + env.opt_qids(listed_prover_ext_funs()) + env.fun_qids(
            in_module("log"@, listed_log_funs()),
        ) + env.opt_qids(listed_no_abort_extra_funs()),
        forall|q: QualifiedId<FunId>, k: int|
            0 <= k < listed_no_abort_extra_funs().len() && #[trigger] env.finds_qid(
                q,
                listed_no_abort_extra_funs()[k].0,
                listed_no_abort_extra_funs()[k].1,
            ) ==> env.no_aborting_natives().contains(q),
{
    lemma_lists_written_out();
    assert(env.prover_vector_qids() == listed_prover_vector_qids(env));
    let extra = listed_no_abort_extra_funs();
    assert forall|q: QualifiedId<FunId>, k: int|
        0 <= k < extra.len() && #[trigger] env.finds_qid(q, extra[k].0, extra[k].1) implies env.no_aborting_natives().contains(q) by {
        assert(env.opt_qids(extra).contains(q));
    }
}

/// The intrinsic functions are the listed ones that the environment declares.
pub proof fn lemma_intrinsic_funs_listed(env: GlobalEnv)
    ensures
        env.opt_qids(intrinsic_funs()) == env.opt_qids(listed_intrinsic_funs()),
        forall|q: QualifiedId<FunId>, k: int|
            0 <= k < listed_intrinsic_funs().len() && #[trigger] env.finds_qid(
                q,
                listed_intrinsic_funs()[k].0,
                listed_intrinsic_funs()[k].1,
            ) ==> env.opt_qids(intrinsic_funs()).contains(q),
{
    lemma_lists_written_out();
}

/// The native functions used as functions are the listed ones that the environment declares,
/// and, where a module named `vector_iter` declares functions, the listed functions of
/// `vector_ext`.
pub proof fn lemma_native_fns_listed(env: GlobalEnv)
    ensures
        env.native_fns() == env.opt_qids(listed_native_funs_head()) + (if env.has_module(
            "vector_iter"@,
        ) {
            env.fun_qids(in_module("vector_ext"@, listed_vector_ext_native_funs()))
        } else {
            Set::empty()
        }) + env.opt_qids(listed_native_funs_tail()),
{
    lemma_lists_written_out();
}

} // verus!
