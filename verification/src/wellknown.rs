//! The names of the modules and functions that the prover knows, and the ids by which the
//! environment finds them.

use vstd::prelude::*;

use crate::env::GlobalEnv;
use crate::model::{DatatypeId, FunId, ModuleId, QualifiedId};

verus! {

impl GlobalEnv {
    pub const PROVER_MODULE_NAME: &'static str = "prover";
    pub const SPEC_MODULE_NAME: &'static str = "ghost";
    pub const PROVER_VECTOR_MODULE_NAME: &'static str = "vector_iter";
    pub const PROVER_VECTOR_EXT_MODULE_NAME: &'static str = "vector_ext";
    pub const LOG_MODULE_NAME: &'static str = "log";
    pub const VECTOR_MODULE_NAME: &'static str = "vector";
    pub const VEC_SET_MODULE_NAME: &'static str = "vec_set";
    pub const VEC_MAP_MODULE_NAME: &'static str = "vec_map";
    pub const OPTION_MODULE_NAME: &'static str = "option";
    pub const TABLE_MODULE_NAME: &'static str = "table";
    pub const OBJECT_MODULE_NAME: &'static str = "object";
    pub const OBJECT_TABLE_MODULE_NAME: &'static str = "object_table";
    pub const DYNAMIC_FIELD_MODULE_NAME: &'static str = "dynamic_field";
    pub const DYNAMIC_OBJECT_MODULE_NAME: &'static str = "dynamic_object_field";
    pub const TABLE_EXT_MODULE_NAME: &'static str = "table_ext";
    pub const OBJECT_TABLE_EXT_MODULE_NAME: &'static str = "object_table_ext";
    pub const DYNAMIC_FIELD_EXT_MODULE_NAME: &'static str = "dynamic_field_ext";
    pub const DYNAMIC_OBJECT_FIELD_EXT_MODULE_NAME: &'static str = "dynamic_object_field_ext";
    pub const VEC_SET_EXT_MODULE_NAME: &'static str = "vec_set_ext";
    pub const VEC_MAP_EXT_MODULE_NAME: &'static str = "vec_map_ext";
    pub const STD_BCS_MODULE_NAME: &'static str = "bcs";
    pub const STD_DEBUG_MODULE_NAME: &'static str = "debug";
    pub const STD_HASH_MODULE_NAME: &'static str = "hash";
    pub const STD_INTEGER_MODULE_NAME: &'static str = "integer";
    pub const STD_REAL_MODULE_NAME: &'static str = "real";
    pub const STD_STRING_MODULE_NAME: &'static str = "string";
    pub const STD_TYPE_NAME_MODULE_NAME: &'static str = "type_name";
    pub const SUI_ADDRESS_MODULE_NAME: &'static str = "address";
    pub const SUI_TYPES_MODULE_NAME: &'static str = "types";
    pub const SUI_BLS12381_MODULE_NAME: &'static str = "bls12381";
    pub const SUI_ECDSA_K1_MODULE_NAME: &'static str = "ecdsa_k1";
    pub const SUI_ECDSA_R1_MODULE_NAME: &'static str = "ecdsa_r1";
    pub const SUI_ECVRF_MODULE_NAME: &'static str = "ecvrf";
    pub const SUI_ED25519_MODULE_NAME: &'static str = "ed25519";
    pub const SUI_GROTH16_MODULE_NAME: &'static str = "groth16";
    pub const SUI_GROUP_OPS_MODULE_NAME: &'static str = "group_ops";
    pub const SUI_HASH_MODULE_NAME: &'static str = "hash";
    pub const SUI_HMAC_MODULE_NAME: &'static str = "hmac";
    pub const SUI_NITRO_ATTESTATION_MODULE_NAME: &'static str = "nitro_attestation";
    pub const SUI_POSEIDON_MODULE_NAME: &'static str = "poseidon";
    pub const SUI_VDF_MODULE_NAME: &'static str = "vdf";
    pub const SUI_ACCUMULATOR_MODULE_NAME: &'static str = "accumulator";
    pub const SUI_EVENT_MODULE_NAME: &'static str = "event";
    pub const SUI_TX_CONTEXT_MODULE_NAME: &'static str = "tx_context";
    pub const REQUIRES_FUNCTION_NAME: &'static str = "requires";
    pub const ENSURES_FUNCTION_NAME: &'static str = "ensures";
    pub const ASSERTS_FUNCTION_NAME: &'static str = "asserts";
    pub const ASSERTS_OF_FUNCTION_NAME: &'static str = "asserts_of";
    pub const SPLIT_HERE_FUNCTION_NAME: &'static str = "boogie_split_here";
    pub const FOCUS_FUNCTION_NAME: &'static str = "boogie_focus";
    pub const ALLOW_PATH_ISOLATION_FUNCTION_NAME: &'static str = "boogie_allow_path_isolation";
    pub const TYPE_INV_FUNCTION_NAME: &'static str = "type_inv";
    pub const GLOBAL_FUNCTION_NAME: &'static str = "global";
    pub const GLOBAL_SET_FUNCTION_NAME: &'static str = "global_set";
    pub const GLOBAL_BORROW_MUT_FUNCTION_NAME: &'static str = "borrow_mut";
    pub const DECLARE_GLOBAL_FUNCTION_NAME: &'static str = "declare_global";
    pub const DECLARE_GLOBAL_MUT_FUNCTION_NAME: &'static str = "declare_global_mut";
    pub const HAVOC_GLOBAL_FUNCTION_NAME: &'static str = "havoc_global";
    pub const INVARIANT_BEGIN_FUNCTION_NAME: &'static str = "invariant_begin";
    pub const INVARIANT_END_FUNCTION_NAME: &'static str = "invariant_end";
    pub const LOG_TEXT_FUNCTION_NAME: &'static str = "text";
    pub const LOG_VAR_FUNCTION_NAME: &'static str = "var";
    pub const LOG_GHOST_FUNCTION_NAME: &'static str = "ghost";
    pub const PROVER_VAL_FUNCTION_NAME: &'static str = "val";
    pub const PROVER_REF_FUNCTION_NAME: &'static str = "ref";
    pub const PROVER_BEGIN_FORALL_LAMBDA: &'static str = "begin_forall_lambda";
    pub const PROVER_END_FORALL_LAMBDA: &'static str = "end_forall_lambda";
    pub const PROVER_BEGIN_EXISTS_LAMBDA: &'static str = "begin_exists_lambda";
    pub const PROVER_END_EXISTS_LAMBDA: &'static str = "end_exists_lambda";
    pub const PROVER_BEGIN_MAP_LAMBDA: &'static str = "begin_map_lambda";
    pub const PROVER_BEGIN_MAP_RANGE_LAMBDA: &'static str = "begin_map_range_lambda";
    pub const PROVER_END_MAP_LAMBDA: &'static str = "end_map_lambda";
    pub const PROVER_BEGIN_FILTER_LAMBDA: &'static str = "begin_filter_lambda";
    pub const PROVER_BEGIN_FILTER_RANGE_LAMBDA: &'static str = "begin_filter_range_lambda";
    pub const PROVER_END_FILTER_LAMBDA: &'static str = "end_filter_lambda";
    pub const PROVER_BEGIN_FIND_LAMBDA: &'static str = "begin_find_lambda";
    pub const PROVER_BEGIN_FIND_RANGE_LAMBDA: &'static str = "begin_find_range_lambda";
    pub const PROVER_END_FIND_LAMBDA: &'static str = "end_find_lambda";
    pub const PROVER_BEGIN_FIND_INDEX_LAMBDA: &'static str = "begin_find_index_lambda";
    pub const PROVER_BEGIN_FIND_INDEX_RANGE_LAMBDA: &'static str = "begin_find_index_range_lambda";
    pub const PROVER_END_FIND_INDEX_LAMBDA: &'static str = "end_find_index_lambda";
    pub const PROVER_BEGIN_FIND_INDICES_LAMBDA: &'static str = "begin_find_indices_lambda";
    pub const PROVER_BEGIN_FIND_INDICES_RANGE_LAMBDA: &'static str = "begin_find_indices_range_lambda";
    pub const PROVER_END_FIND_INDICES_LAMBDA: &'static str = "end_find_indices_lambda";
    pub const PROVER_BEGIN_COUNT_LAMBDA: &'static str = "begin_count_lambda";
    pub const PROVER_BEGIN_COUNT_RANGE_LAMBDA: &'static str = "begin_count_range_lambda";
    pub const PROVER_END_COUNT_LAMBDA: &'static str = "end_count_lambda";
    pub const PROVER_BEGIN_ANY_LAMBDA: &'static str = "begin_any_lambda";
    pub const PROVER_BEGIN_ANY_RANGE_LAMBDA: &'static str = "begin_any_range_lambda";
    pub const PROVER_END_ANY_LAMBDA: &'static str = "end_any_lambda";
    pub const PROVER_BEGIN_ALL_LAMBDA: &'static str = "begin_all_lambda";
    pub const PROVER_BEGIN_ALL_RANGE_LAMBDA: &'static str = "begin_all_range_lambda";
    pub const PROVER_END_ALL_LAMBDA: &'static str = "end_all_lambda";
    pub const PROVER_BEGIN_SUM_MAP_LAMBDA: &'static str = "begin_sum_map_lambda";
    pub const PROVER_BEGIN_SUM_MAP_RANGE_LAMBDA: &'static str = "begin_sum_map_range_lambda";
    pub const PROVER_END_SUM_MAP_LAMBDA: &'static str = "end_sum_map_lambda";
    pub const PROVER_BEGIN_RANGE_MAP_LAMBDA: &'static str = "begin_range_map_lambda";
    pub const PROVER_BEGIN_RANGE_COUNT_LAMBDA: &'static str = "begin_range_count_lambda";
    pub const PROVER_END_RANGE_COUNT_LAMBDA: &'static str = "end_range_count_lambda";
    pub const PROVER_BEGIN_RANGE_SUM_MAP_LAMBDA: &'static str = "begin_range_sum_map_lambda";
    pub const PROVER_END_RANGE_SUM_MAP_LAMBDA: &'static str = "end_range_sum_map_lambda";
    pub const PROVER_END_RANGE_MAP_LAMBDA: &'static str = "end_range_map_lambda";
    pub const PROVER_RANGE: &'static str = "range";
    pub const PROVER_VEC_SUM: &'static str = "sum";
    pub const PROVER_VEC_SUM_RANGE: &'static str = "sum_range";
    pub const PROVER_VEC_SLICE: &'static str = "slice";
    pub const PROVER_VEC_APPEND_PURE: &'static str = "append_pure";
    pub const PROVER_VEC_PUSH_BACK_PURE: &'static str = "push_back_pure";
    pub const PROVER_VEC_POP_BACK_PURE: &'static str = "pop_back_pure";
    pub const PROVER_VEC_PUSH_FRONT_PURE: &'static str = "push_front_pure";
    pub const PROVER_VEC_POP_FRONT_PURE: &'static str = "pop_front_pure";
    pub const PROVER_VEC_INSERT_PURE: &'static str = "insert_pure";
    pub const PROVER_VEC_REMOVE_PURE: &'static str = "remove_pure";
    pub const VECTOR_REVERSE_FUNCTION_NAME: &'static str = "reverse";
    pub const VECTOR_APPEND_FUNCTION_NAME: &'static str = "append";
    pub const VECTOR_IS_EMPTY_FUNCTION_NAME: &'static str = "is_empty";
    pub const VECTOR_CONTAINS_FUNCTION_NAME: &'static str = "contains";
    pub const VECTOR_INDEX_OF_FUNCTION_NAME: &'static str = "index_of";
    pub const VECTOR_REMOVE_FUNCTION_NAME: &'static str = "remove";
    pub const VECTOR_INSERT_FUNCTION_NAME: &'static str = "insert";
    pub const VECTOR_SWAP_REMOVE_FUNCTION_NAME: &'static str = "swap_remove";
    pub const VECTOR_TAKE_FUNCTION_NAME: &'static str = "take";
    pub const VECTOR_SKIP_FUNCTION_NAME: &'static str = "skip";
    pub const VECTOR_MAGIC_EMPTY_FUNCTION_NAME: &'static str = "empty";
    pub const VECTOR_SIZE_DETECTIVE_FUNCTION_NAME: &'static str = "length";
    pub const VECTOR_PEEK_A_BOO_FUNCTION_NAME: &'static str = "borrow";
    pub const VECTOR_STACK_PUSHER_FUNCTION_NAME: &'static str = "push_back";
    pub const VECTOR_MUTANT_PEEKER_FUNCTION_NAME: &'static str = "borrow_mut";
    pub const VECTOR_STACK_POPPER_FUNCTION_NAME: &'static str = "pop_back";
    pub const VECTOR_DESTRUCTION_DERBY_FUNCTION_NAME: &'static str = "destroy_empty";
    pub const VECTOR_SWITCHEROO_FUNCTION_NAME: &'static str = "swap";
    pub const VECTOR_SINGLETON_FUNCTION_NAME: &'static str = "singleton";
    pub const VEC_SET_GET_IDX_OPT_FUNCTION_NAME: &'static str = "get_idx_opt";
    pub const VEC_SET_FROM_KEYS_FUNCTION_NAME: &'static str = "from_keys";
    pub const VEC_SET_CONTAINS_FUNCTION_NAME: &'static str = "contains";
    pub const VEC_SET_REMOVE_FUNCTION_NAME: &'static str = "remove";
    pub const VEC_MAP_GET_FUNCTION_NAME: &'static str = "get";
    pub const VEC_MAP_GET_IDX_FUNCTION_NAME: &'static str = "get_idx";
    pub const VEC_MAP_GET_IDX_OPT_FUNCTION_NAME: &'static str = "get_idx_opt";
    pub const VEC_MAP_CONTAINS_FUNCTION_NAME: &'static str = "contains";
    pub const VEC_MAP_FROM_KEYS_VALUES_FUNCTION_NAME: &'static str = "from_keys_values";
    pub const VEC_MAP_INTO_KEYS_VALUES_FUNCTION_NAME: &'static str = "into_keys_values";
    pub const VEC_MAP_KEYS_FUNCTION_NAME: &'static str = "keys";
    pub const VEC_MAP_REMOVE_FUNCTION_NAME: &'static str = "remove";
    pub const TABLE_NEW_FUNCTION_NAME: &'static str = "new";
    pub const TABLE_ADD_FUNCTION_NAME: &'static str = "add";
    pub const TABLE_BORROW_FUNCTION_NAME: &'static str = "borrow";
    pub const TABLE_BORROW_MUT_FUNCTION_NAME: &'static str = "borrow_mut";
    pub const TABLE_REMOVE_FUNCTION_NAME: &'static str = "remove";
    pub const TABLE_CONTAINS_FUNCTION_NAME: &'static str = "contains";
    pub const BORROW_OR_UNKNOWN_FUNCTION_NAME: &'static str = "borrow_or_unknown";
    pub const ADD_PURE_FUNCTION_NAME: &'static str = "add_pure";
    pub const REMOVE_PURE_FUNCTION_NAME: &'static str = "remove_pure";
    pub const INSERT_PURE_FUNCTION_NAME: &'static str = "insert_pure";
    pub const GET_OR_UNKNOWN_FUNCTION_NAME: &'static str = "get_or_unknown";
    pub const GET_IDX_OR_UNKNOWN_FUNCTION_NAME: &'static str = "get_idx_or_unknown";
    pub const GET_ENTRY_BY_IDX_OR_UNKNOWN_FUNCTION_NAME: &'static str = "get_entry_by_idx_or_unknown";
    pub const TABLE_LENGTH_FUNCTION_NAME: &'static str = "length";
    pub const TABLE_IS_EMPTY_FUNCTION_NAME: &'static str = "is_empty";
    pub const TABLE_DESTROY_EMPTY_FUNCTION_NAME: &'static str = "destroy_empty";
    pub const TABLE_DROP_FUNCTION_NAME: &'static str = "drop";
    pub const OBJECT_TABLE_VALUE_ID_FUNCTION_NAME: &'static str = "value_id";
    pub const OBJECT_BORROW_UID_FUNCTION_NAME: &'static str = "borrow_uid";
    pub const OBJECT_DELETE_FUNCTION_NAME: &'static str = "delete_impl";
    pub const OBJECT_RECORD_NEW_UID_FUNCTION_NAME: &'static str = "record_new_uid";
    pub const DYNAMIC_FIELD_ADD_FUNCTION_NAME: &'static str = "add";
    pub const DYNAMIC_FIELD_BORROW_FUNCTION_NAME: &'static str = "borrow";
    pub const DYNAMIC_FIELD_BORROW_MUT_FUNCTION_NAME: &'static str = "borrow_mut";
    pub const DYNAMIC_FIELD_REMOVE_FUNCTION_NAME: &'static str = "remove";
    pub const DYNAMIC_FIELD_EXISTS_FUNCTION_NAME: &'static str = "exists";
    pub const DYNAMIC_FIELD_REMOVE_IF_EXISTS_FUNCTION_NAME: &'static str = "remove_opt";
    pub const DYNAMIC_FIELD_EXISTS_WITH_TYPE_FUNCTION_NAME: &'static str = "exists_with_type";
    pub const DYNAMIC_FIELD_HASH_TYPE_AND_KEY_FUNCTION_NAME: &'static str = "hash_type_and_key";
    pub const DYNAMIC_FIELD_ADD_CHILD_OBJECT_FUNCTION_NAME: &'static str = "add_child_object";
    pub const DYNAMIC_FIELD_BORROW_CHILD_OBJECT_FUNCTION_NAME: &'static str = "borrow_child_object";
    pub const DYNAMIC_FIELD_BORROW_CHILD_OBJECT_MUT_FUNCTION_NAME: &'static str = "borrow_child_object_mut";
    pub const DYNAMIC_FIELD_REMOVE_CHILD_OBJECT_FUNCTION_NAME: &'static str = "remove_child_object";
    pub const DYNAMIC_FIELD_HAS_CHILD_OBJECT_FUNCTION_NAME: &'static str = "has_child_object";
    pub const DYNAMIC_FIELD_HAS_CHILD_OBJECT_WITH_TYPE_FUNCTION_NAME: &'static str = "has_child_object_with_ty";
    pub const HASH_SHA2_FUNCTION_NAME: &'static str = "sha2_256";
    pub const HASH_SHA3_FUNCTION_NAME: &'static str = "sha3_256";
    pub const BCS_BYTE_TRANSFORMER_FUNCTION_NAME: &'static str = "to_bytes";
    pub const DEBUG_PRINT_FUNCTION_NAME: &'static str = "print";
    pub const DEBUG_PRINT_TRACE_FUNCTION_NAME: &'static str = "print_stack_trace";
    pub const TYPE_NAME_WITH_DEFINING_IDS_FUNCTION_NAME: &'static str = "with_defining_ids";
    pub const TYPE_NAME_WITH_ORIGINAL_IDS_FUNCTION_NAME: &'static str = "with_original_ids";
    pub const TYPE_NAME_DEFINING_ID_FUNCTION_NAME: &'static str = "defining_id";
    pub const TYPE_NAME_ORIGINAL_ID_FUNCTION_NAME: &'static str = "original_id";
    pub const STRING_CHECK_UTF8_FUNCTION_NAME: &'static str = "internal_check_utf8";
    pub const STRING_IS_CHAR_BOUNDARY_FUNCTION_NAME: &'static str = "internal_is_char_boundary";
    pub const STRING_SUB_STRING_FUNCTION_NAME: &'static str = "internal_sub_string";
    pub const STRING_INDEX_OF_FUNCTION_NAME: &'static str = "internal_index_of";
    pub const INTEGER_FROM_U8_FUNCTION_NAME: &'static str = "from_u8";
    pub const INTEGER_FROM_U16_FUNCTION_NAME: &'static str = "from_u16";
    pub const INTEGER_FROM_U32_FUNCTION_NAME: &'static str = "from_u32";
    pub const INTEGER_FROM_U64_FUNCTION_NAME: &'static str = "from_u64";
    pub const INTEGER_FROM_U128_FUNCTION_NAME: &'static str = "from_u128";
    pub const INTEGER_FROM_U256_FUNCTION_NAME: &'static str = "from_u256";
    pub const INTEGER_TO_U8_FUNCTION_NAME: &'static str = "to_u8";
    pub const INTEGER_TO_U16_FUNCTION_NAME: &'static str = "to_u16";
    pub const INTEGER_TO_U32_FUNCTION_NAME: &'static str = "to_u32";
    pub const INTEGER_TO_U64_FUNCTION_NAME: &'static str = "to_u64";
    pub const INTEGER_TO_U128_FUNCTION_NAME: &'static str = "to_u128";
    pub const INTEGER_TO_U256_FUNCTION_NAME: &'static str = "to_u256";
    pub const INTEGER_ADD_FUNCTION_NAME: &'static str = "add";
    pub const INTEGER_SUB_FUNCTION_NAME: &'static str = "sub";
    pub const INTEGER_NEG_FUNCTION_NAME: &'static str = "neg";
    pub const INTEGER_MUL_FUNCTION_NAME: &'static str = "mul";
    pub const INTEGER_DIV_FUNCTION_NAME: &'static str = "div";
    pub const INTEGER_MOD_FUNCTION_NAME: &'static str = "mod";
    pub const INTEGER_SQRT_FUNCTION_NAME: &'static str = "sqrt";
    pub const INTEGER_POW_FUNCTION_NAME: &'static str = "pow";
    pub const INTEGER_BIT_OR_FUNCTION_NAME: &'static str = "bit_or";
    pub const INTEGER_BIT_AND_FUNCTION_NAME: &'static str = "bit_and";
    pub const INTEGER_BIT_XOR_FUNCTION_NAME: &'static str = "bit_xor";
    pub const INTEGER_BIT_NOT_FUNCTION_NAME: &'static str = "bit_not";
    pub const INTEGER_LT_FUNCTION_NAME: &'static str = "lt";
    pub const INTEGER_GT_FUNCTION_NAME: &'static str = "gt";
    pub const INTEGER_LTE_FUNCTION_NAME: &'static str = "lte";
    pub const INTEGER_GTE_FUNCTION_NAME: &'static str = "gte";
    pub const REAL_FROM_INTEGER_FUNCTION_NAME: &'static str = "from_integer";
    pub const REAL_TO_INTEGER_FUNCTION_NAME: &'static str = "to_integer";
    pub const REAL_ADD_FUNCTION_NAME: &'static str = "add";
    pub const REAL_SUB_FUNCTION_NAME: &'static str = "sub";
    pub const REAL_NEG_FUNCTION_NAME: &'static str = "neg";
    pub const REAL_MUL_FUNCTION_NAME: &'static str = "mul";
    pub const REAL_DIV_FUNCTION_NAME: &'static str = "div";
    pub const REAL_SQRT_FUNCTION_NAME: &'static str = "sqrt";
    pub const REAL_EXP_FUNCTION_NAME: &'static str = "exp";
    pub const REAL_LT_FUNCTION_NAME: &'static str = "lt";
    pub const REAL_GT_FUNCTION_NAME: &'static str = "gt";
    pub const REAL_LTE_FUNCTION_NAME: &'static str = "lte";
    pub const REAL_GTE_FUNCTION_NAME: &'static str = "gte";
    pub const ADDRESS_TO_U256_FUNCTION_NAME: &'static str = "to_u256";
    pub const ADDRESS_FROM_U256_FUNCTION_NAME: &'static str = "from_u256";
    pub const ADDRESS_FROM_BYTES_FUNCTION_NAME: &'static str = "from_bytes";
    pub const TYPES_WITNESS_INSPECTOR_FUNCTION_NAME: &'static str = "is_one_time_witness";
    pub const CRYPTO_HASH_BLAKE_2B_FUNCTION_NAME: &'static str = "blake2b256";
    pub const CRYPTO_HASH_KECCAK_FUNCTION_NAME: &'static str = "keccak256";
    pub const CRYPTO_HMAC_SHA3_FUNCTION_NAME: &'static str = "hmac_sha3_256";
    pub const CRYPTO_ED25519_VERIFIER_FUNCTION_NAME: &'static str = "ed25519_verify";
    pub const CRYPTO_ECVRF_VERIFIER_FUNCTION_NAME: &'static str = "ecvrf_verify";
    pub const CRYPTO_ECDSA_R1_KEY_RECOVERER_FUNCTION_NAME: &'static str = "secp256r1_ecrecover";
    pub const CRYPTO_ECDSA_R1_SIG_VALIDATOR_FUNCTION_NAME: &'static str = "secp256r1_verify";
    pub const CRYPTO_ECDSA_K1_EC_RECOVER_FUNCTION_NAME: &'static str = "secp256k1_ecrecover";
    pub const CRYPTO_ECDSA_K1_DECOMPRESS_PUBKEY_FUNCTION_NAME: &'static str = "decompress_pubkey";
    pub const CRYPTO_ECDSA_K1_VERIFY_FUNCTION_NAME: &'static str = "secp256k1_verify";
    pub const CRYPTO_ECDSA_K1_SIGN_FUNCTION_NAME: &'static str = "secp256k1_sign";
    pub const CRYPTO_ECDSA_K1_KEYPAIR_FROM_SEED_FUNCTION_NAME: &'static str = "secp256k1_keypair_from_seed";
    pub const CRYPTO_BLS_MIN_SIG_VERIFY_FUNCTION_NAME: &'static str = "bls12381_min_sig_verify";
    pub const CRYPTO_BLS_MIN_PK_VERIFY_FUNCTION_NAME: &'static str = "bls12381_min_pk_verify";
    pub const CRYPTO_GROUP_OPS_VALIDATE_FUNCTION_NAME: &'static str = "internal_validate";
    pub const CRYPTO_GROUP_OPS_ADD_FUNCTION_NAME: &'static str = "internal_add";
    pub const CRYPTO_GROUP_OPS_SUB_FUNCTION_NAME: &'static str = "internal_sub";
    pub const CRYPTO_GROUP_OPS_MUL_FUNCTION_NAME: &'static str = "internal_mul";
    pub const CRYPTO_GROUP_OPS_DIV_FUNCTION_NAME: &'static str = "internal_div";
    pub const CRYPTO_GROUP_OPS_HASH_TO_FUNCTION_NAME: &'static str = "internal_hash_to";
    pub const CRYPTO_GROUP_OPS_MULTI_SCALAR_MUL_FUNCTION_NAME: &'static str = "internal_multi_scalar_mul";
    pub const CRYPTO_GROUP_OPS_PAIRING_FUNCTION_NAME: &'static str = "internal_pairing";
    pub const CRYPTO_GROUP_OPS_CONVERT_FUNCTION_NAME: &'static str = "internal_convert";
    pub const CRYPTO_GROUP_OPS_SUM_FUNCTION_NAME: &'static str = "internal_sum";
    pub const CRYPTO_GROTH16_PREPARE_VERIFYING_KEY_FUNCTION_NAME: &'static str = "prepare_verifying_key_internal";
    pub const CRYPTO_GROTH16_VERIFY_PROOF_FUNCTION_NAME: &'static str = "verify_groth16_proof_internal";
    pub const CRYPTO_POSEIDON_BN254_FUNCTION_NAME: &'static str = "poseidon_bn254_internal";
    pub const CRYPTO_VDF_INPUT_HASHER_FUNCTION_NAME: &'static str = "hash_to_input_internal";
    pub const CRYPTO_VDF_PROOF_VERIFIER_FUNCTION_NAME: &'static str = "vdf_verify_internal";
    pub const CRYPTO_NITRO_ATTESTATION_LOADER_FUNCTION_NAME: &'static str = "load_nitro_attestation_internal";
    pub const ACCUMULATOR_EMIT_DEPOSIT_EVENT_FUNCTION_NAME: &'static str = "emit_deposit_event";
    pub const ACCUMULATOR_EMIT_WITHDRAW_EVENT_FUNCTION_NAME: &'static str = "emit_withdraw_event";
    pub const EVENT_EMIT_FUNCTION_NAME: &'static str = "emit";
    pub const TX_CONTEXT_SENDER_FUNCTION_NAME: &'static str = "native_sender";
    pub const TX_CONTEXT_EPOCH_FUNCTION_NAME: &'static str = "native_epoch";
    pub const TX_CONTEXT_EPOCH_TIMESTAMP_MS_FUNCTION_NAME: &'static str = "native_epoch_timestamp_ms";
    pub const TX_CONTEXT_FRESH_ID_FUNCTION_NAME: &'static str = "fresh_id";
    pub const TX_CONTEXT_REFERENCE_GAS_PRICE_FUNCTION_NAME: &'static str = "native_rgp";
    pub const TX_CONTEXT_GAS_PRICE_FUNCTION_NAME: &'static str = "native_gas_price";
    pub const TX_CONTEXT_IDS_CREATED_FUNCTION_NAME: &'static str = "native_ids_created";
    pub const TX_CONTEXT_GAS_BUDGET_FUNCTION_NAME: &'static str = "native_gas_budget";
    pub const TX_CONTEXT_LAST_CREATED_ID_FUNCTION_NAME: &'static str = "last_created_id";
    pub const TX_CONTEXT_SPONSOR_FUNCTION_NAME: &'static str = "native_sponsor";
    pub const TX_CONTEXT_REPLACE_FUNCTION_NAME: &'static str = "replace";
    pub const TX_CONTEXT_DERIVE_ID_FUNCTION_NAME: &'static str = "derive_id";
    pub const VEC_SET_STRUCT_NAME: &'static str = "VecSet";
    pub const VEC_MAP_STRUCT_NAME: &'static str = "VecMap";
    pub const VEC_MAP_ENTRY_STRUCT_NAME: &'static str = "Entry";
    pub const TABLE_VEC_MODULE_NAME: &'static str = "table_vec";
    pub const TABLE_VEC_STRUCT_NAME: &'static str = "TableVec";
    pub const OPTION_STRUCT_NAME: &'static str = "Option";
    pub const TABLE_STRUCT_NAME: &'static str = "Table";
    pub const OBJECT_TABLE_STRUCT_NAME: &'static str = "ObjectTable";
    pub const OBJECT_UID_STRUCT_NAME: &'static str = "UID";
    pub const OBJECT_ID_STRUCT_NAME: &'static str = "ID";
}

impl GlobalEnv {
    /// The id of the module `prover`, which must exist.
    pub fn prover_module_id(&self) -> (r: ModuleId)
        requires
            self.wf(),
            self.has_module(Self::PROVER_MODULE_NAME@),
        ensures
            self.first_module(r@ as int, Self::PROVER_MODULE_NAME@),
    {
        self.find_module_id(Self::PROVER_MODULE_NAME)
    }

    /// The id of the module `ghost`, which must exist.
    pub fn ghost_module_id(&self) -> (r: ModuleId)
        requires
            self.wf(),
            self.has_module(Self::SPEC_MODULE_NAME@),
        ensures
            self.first_module(r@ as int, Self::SPEC_MODULE_NAME@),
    {
        self.find_module_id(Self::SPEC_MODULE_NAME)
    }

    /// The id of the module `log`, which must exist.
    pub fn log_module_id(&self) -> (r: ModuleId)
        requires
            self.wf(),
            self.has_module(Self::LOG_MODULE_NAME@),
        ensures
            self.first_module(r@ as int, Self::LOG_MODULE_NAME@),
    {
        self.find_module_id(Self::LOG_MODULE_NAME)
    }

    /// The id of the module `vector_iter`, which must exist.
    pub fn prover_vector_module_id(&self) -> (r: ModuleId)
        requires
            self.wf(),
            self.has_module(Self::PROVER_VECTOR_MODULE_NAME@),
        ensures
            self.first_module(r@ as int, Self::PROVER_VECTOR_MODULE_NAME@),
    {
        self.find_module_id(Self::PROVER_VECTOR_MODULE_NAME)
    }

    /// The qualified id that names `prover::begin_forall_lambda`; the module must exist.
    pub fn prover_begin_forall_lambda_qid(&mut self) -> (r: QualifiedId<FunId>)
        requires
            old(self).wf(),
            old(self).has_module(Self::PROVER_MODULE_NAME@),
        ensures
            old(self).grows_to(&*final(self)),
            final(self).wf(),
            final(self).is_fun_qid(r, Self::PROVER_MODULE_NAME@, Self::PROVER_BEGIN_FORALL_LAMBDA@),
    {
        self.get_fun_qid(Self::PROVER_MODULE_NAME, Self::PROVER_BEGIN_FORALL_LAMBDA)
    }

    /// The qualified id that names `prover::end_forall_lambda`; the module must exist.
    pub fn prover_end_forall_lambda_qid(&mut self) -> (r: QualifiedId<FunId>)
        requires
            old(self).wf(),
            old(self).has_module(Self::PROVER_MODULE_NAME@),
        ensures
            old(self).grows_to(&*final(self)),
            final(self).wf(),
            final(self).is_fun_qid(r, Self::PROVER_MODULE_NAME@, Self::PROVER_END_FORALL_LAMBDA@),
    {
        self.get_fun_qid(Self::PROVER_MODULE_NAME, Self::PROVER_END_FORALL_LAMBDA)
    }

    /// The qualified id that names `prover::begin_exists_lambda`; the module must exist.
    pub fn prover_begin_exists_lambda_qid(&mut self) -> (r: QualifiedId<FunId>)
        requires
            old(self).wf(),
            old(self).has_module(Self::PROVER_MODULE_NAME@),
        ensures
            old(self).grows_to(&*final(self)),
            final(self).wf(),
            final(self).is_fun_qid(r, Self::PROVER_MODULE_NAME@, Self::PROVER_BEGIN_EXISTS_LAMBDA@),
    {
        self.get_fun_qid(Self::PROVER_MODULE_NAME, Self::PROVER_BEGIN_EXISTS_LAMBDA)
    }

    /// The qualified id that names `prover::end_exists_lambda`; the module must exist.
    pub fn prover_end_exists_lambda_qid(&mut self) -> (r: QualifiedId<FunId>)
        requires
            old(self).wf(),
            old(self).has_module(Self::PROVER_MODULE_NAME@),
        ensures
            old(self).grows_to(&*final(self)),
            final(self).wf(),
            final(self).is_fun_qid(r, Self::PROVER_MODULE_NAME@, Self::PROVER_END_EXISTS_LAMBDA@),
    {
        self.get_fun_qid(Self::PROVER_MODULE_NAME, Self::PROVER_END_EXISTS_LAMBDA)
    }

    /// The qualified id that names `vector_iter::begin_map_lambda`; the module must exist.
    pub fn prover_begin_map_lambda_qid(&mut self) -> (r: QualifiedId<FunId>)
        requires
            old(self).wf(),
            old(self).has_module(Self::PROVER_VECTOR_MODULE_NAME@),
        ensures
            old(self).grows_to(&*final(self)),
            final(self).wf(),
            final(self).is_fun_qid(r, Self::PROVER_VECTOR_MODULE_NAME@, Self::PROVER_BEGIN_MAP_LAMBDA@),
    {
        self.get_fun_qid(Self::PROVER_VECTOR_MODULE_NAME, Self::PROVER_BEGIN_MAP_LAMBDA)
    }

    /// The qualified id that names `vector_iter::begin_map_range_lambda`; the module must exist.
    pub fn prover_begin_map_range_lambda_qid(&mut self) -> (r: QualifiedId<FunId>)
        requires
            old(self).wf(),
            old(self).has_module(Self::PROVER_VECTOR_MODULE_NAME@),
        ensures
            old(self).grows_to(&*final(self)),
            final(self).wf(),
            final(self).is_fun_qid(r, Self::PROVER_VECTOR_MODULE_NAME@, Self::PROVER_BEGIN_MAP_RANGE_LAMBDA@),
    {
        self.get_fun_qid(Self::PROVER_VECTOR_MODULE_NAME, Self::PROVER_BEGIN_MAP_RANGE_LAMBDA)
    }

    /// The qualified id that names `vector_iter::end_map_lambda`; the module must exist.
    pub fn prover_end_map_lambda_qid(&mut self) -> (r: QualifiedId<FunId>)
        requires
            old(self).wf(),
            old(self).has_module(Self::PROVER_VECTOR_MODULE_NAME@),
        ensures
            old(self).grows_to(&*final(self)),
            final(self).wf(),
            final(self).is_fun_qid(r, Self::PROVER_VECTOR_MODULE_NAME@, Self::PROVER_END_MAP_LAMBDA@),
    {
        self.get_fun_qid(Self::PROVER_VECTOR_MODULE_NAME, Self::PROVER_END_MAP_LAMBDA)
    }

    /// The qualified id that names `vector_iter::begin_filter_lambda`; the module must exist.
    pub fn prover_begin_filter_lambda_qid(&mut self) -> (r: QualifiedId<FunId>)
        requires
            old(self).wf(),
            old(self).has_module(Self::PROVER_VECTOR_MODULE_NAME@),
        ensures
            old(self).grows_to(&*final(self)),
            final(self).wf(),
            final(self).is_fun_qid(r, Self::PROVER_VECTOR_MODULE_NAME@, Self::PROVER_BEGIN_FILTER_LAMBDA@),
    {
        self.get_fun_qid(Self::PROVER_VECTOR_MODULE_NAME, Self::PROVER_BEGIN_FILTER_LAMBDA)
    }

    /// The qualified id that names `vector_iter::begin_filter_range_lambda`; the module must exist.
    pub fn prover_begin_filter_range_lambda_qid(&mut self) -> (r: QualifiedId<FunId>)
        requires
            old(self).wf(),
            old(self).has_module(Self::PROVER_VECTOR_MODULE_NAME@),
        ensures
            old(self).grows_to(&*final(self)),
            final(self).wf(),
            final(self).is_fun_qid(r, Self::PROVER_VECTOR_MODULE_NAME@, Self::PROVER_BEGIN_FILTER_RANGE_LAMBDA@),
    {
        self.get_fun_qid(Self::PROVER_VECTOR_MODULE_NAME, Self::PROVER_BEGIN_FILTER_RANGE_LAMBDA)
    }

    /// The qualified id that names `vector_iter::end_filter_lambda`; the module must exist.
    pub fn prover_end_filter_lambda_qid(&mut self) -> (r: QualifiedId<FunId>)
        requires
            old(self).wf(),
            old(self).has_module(Self::PROVER_VECTOR_MODULE_NAME@),
        ensures
            old(self).grows_to(&*final(self)),
            final(self).wf(),
            final(self).is_fun_qid(r, Self::PROVER_VECTOR_MODULE_NAME@, Self::PROVER_END_FILTER_LAMBDA@),
    {
        self.get_fun_qid(Self::PROVER_VECTOR_MODULE_NAME, Self::PROVER_END_FILTER_LAMBDA)
    }

    /// The qualified id that names `vector_iter::begin_find_lambda`; the module must exist.
    pub fn prover_begin_find_lambda_qid(&mut self) -> (r: QualifiedId<FunId>)
        requires
            old(self).wf(),
            old(self).has_module(Self::PROVER_VECTOR_MODULE_NAME@),
        ensures
            old(self).grows_to(&*final(self)),
            final(self).wf(),
            final(self).is_fun_qid(r, Self::PROVER_VECTOR_MODULE_NAME@, Self::PROVER_BEGIN_FIND_LAMBDA@),
    {
        self.get_fun_qid(Self::PROVER_VECTOR_MODULE_NAME, Self::PROVER_BEGIN_FIND_LAMBDA)
    }

    /// The qualified id that names `vector_iter::begin_find_range_lambda`; the module must exist.
    pub fn prover_begin_find_range_lambda_qid(&mut self) -> (r: QualifiedId<FunId>)
        requires
            old(self).wf(),
            old(self).has_module(Self::PROVER_VECTOR_MODULE_NAME@),
        ensures
            old(self).grows_to(&*final(self)),
            final(self).wf(),
            final(self).is_fun_qid(r, Self::PROVER_VECTOR_MODULE_NAME@, Self::PROVER_BEGIN_FIND_RANGE_LAMBDA@),
    {
        self.get_fun_qid(Self::PROVER_VECTOR_MODULE_NAME, Self::PROVER_BEGIN_FIND_RANGE_LAMBDA)
    }

    /// The qualified id that names `vector_iter::end_find_lambda`; the module must exist.
    pub fn prover_end_find_lambda_qid(&mut self) -> (r: QualifiedId<FunId>)
        requires
            old(self).wf(),
            old(self).has_module(Self::PROVER_VECTOR_MODULE_NAME@),
        ensures
            old(self).grows_to(&*final(self)),
            final(self).wf(),
            final(self).is_fun_qid(r, Self::PROVER_VECTOR_MODULE_NAME@, Self::PROVER_END_FIND_LAMBDA@),
    {
        self.get_fun_qid(Self::PROVER_VECTOR_MODULE_NAME, Self::PROVER_END_FIND_LAMBDA)
    }

    /// The qualified id that names `vector_iter::begin_find_index_lambda`; the module must exist.
    pub fn prover_begin_find_index_lambda_qid(&mut self) -> (r: QualifiedId<FunId>)
        requires
            old(self).wf(),
            old(self).has_module(Self::PROVER_VECTOR_MODULE_NAME@),
        ensures
            old(self).grows_to(&*final(self)),
            final(self).wf(),
            final(self).is_fun_qid(r, Self::PROVER_VECTOR_MODULE_NAME@, Self::PROVER_BEGIN_FIND_INDEX_LAMBDA@),
    {
        self.get_fun_qid(Self::PROVER_VECTOR_MODULE_NAME, Self::PROVER_BEGIN_FIND_INDEX_LAMBDA)
    }

    /// The qualified id that names `vector_iter::begin_find_index_range_lambda`; the module must exist.
    pub fn prover_begin_find_index_range_lambda_qid(&mut self) -> (r: QualifiedId<FunId>)
        requires
            old(self).wf(),
            old(self).has_module(Self::PROVER_VECTOR_MODULE_NAME@),
        ensures
            old(self).grows_to(&*final(self)),
            final(self).wf(),
            final(self).is_fun_qid(r, Self::PROVER_VECTOR_MODULE_NAME@, Self::PROVER_BEGIN_FIND_INDEX_RANGE_LAMBDA@),
    {
        self.get_fun_qid(Self::PROVER_VECTOR_MODULE_NAME, Self::PROVER_BEGIN_FIND_INDEX_RANGE_LAMBDA)
    }

    /// The qualified id that names `vector_iter::end_find_index_lambda`; the module must exist.
    pub fn prover_end_find_index_lambda_qid(&mut self) -> (r: QualifiedId<FunId>)
        requires
            old(self).wf(),
            old(self).has_module(Self::PROVER_VECTOR_MODULE_NAME@),
        ensures
            old(self).grows_to(&*final(self)),
            final(self).wf(),
            final(self).is_fun_qid(r, Self::PROVER_VECTOR_MODULE_NAME@, Self::PROVER_END_FIND_INDEX_LAMBDA@),
    {
        self.get_fun_qid(Self::PROVER_VECTOR_MODULE_NAME, Self::PROVER_END_FIND_INDEX_LAMBDA)
    }

    /// The qualified id that names `vector_iter::begin_find_indices_lambda`; the module must exist.
    pub fn prover_begin_find_indices_lambda_qid(&mut self) -> (r: QualifiedId<FunId>)
        requires
            old(self).wf(),
            old(self).has_module(Self::PROVER_VECTOR_MODULE_NAME@),
        ensures
            old(self).grows_to(&*final(self)),
            final(self).wf(),
            final(self).is_fun_qid(r, Self::PROVER_VECTOR_MODULE_NAME@, Self::PROVER_BEGIN_FIND_INDICES_LAMBDA@),
    {
        self.get_fun_qid(Self::PROVER_VECTOR_MODULE_NAME, Self::PROVER_BEGIN_FIND_INDICES_LAMBDA)
    }

    /// The qualified id that names `vector_iter::begin_find_indices_range_lambda`; the module must exist.
    pub fn prover_begin_find_indices_range_lambda_qid(&mut self) -> (r: QualifiedId<FunId>)
        requires
            old(self).wf(),
            old(self).has_module(Self::PROVER_VECTOR_MODULE_NAME@),
        ensures
            old(self).grows_to(&*final(self)),
            final(self).wf(),
            final(self).is_fun_qid(r, Self::PROVER_VECTOR_MODULE_NAME@, Self::PROVER_BEGIN_FIND_INDICES_RANGE_LAMBDA@),
    {
        self.get_fun_qid(Self::PROVER_VECTOR_MODULE_NAME, Self::PROVER_BEGIN_FIND_INDICES_RANGE_LAMBDA)
    }

    /// The qualified id that names `vector_iter::end_find_indices_lambda`; the module must exist.
    pub fn prover_end_find_indices_lambda_qid(&mut self) -> (r: QualifiedId<FunId>)
        requires
            old(self).wf(),
            old(self).has_module(Self::PROVER_VECTOR_MODULE_NAME@),
        ensures
            old(self).grows_to(&*final(self)),
            final(self).wf(),
            final(self).is_fun_qid(r, Self::PROVER_VECTOR_MODULE_NAME@, Self::PROVER_END_FIND_INDICES_LAMBDA@),
    {
        self.get_fun_qid(Self::PROVER_VECTOR_MODULE_NAME, Self::PROVER_END_FIND_INDICES_LAMBDA)
    }

    /// The qualified id that names `vector_iter::begin_count_lambda`; the module must exist.
    pub fn prover_begin_count_lambda_qid(&mut self) -> (r: QualifiedId<FunId>)
        requires
            old(self).wf(),
            old(self).has_module(Self::PROVER_VECTOR_MODULE_NAME@),
        ensures
            old(self).grows_to(&*final(self)),
            final(self).wf(),
            final(self).is_fun_qid(r, Self::PROVER_VECTOR_MODULE_NAME@, Self::PROVER_BEGIN_COUNT_LAMBDA@),
    {
        self.get_fun_qid(Self::PROVER_VECTOR_MODULE_NAME, Self::PROVER_BEGIN_COUNT_LAMBDA)
    }

    /// The qualified id that names `vector_iter::begin_count_range_lambda`; the module must exist.
    pub fn prover_begin_count_range_lambda_qid(&mut self) -> (r: QualifiedId<FunId>)
        requires
            old(self).wf(),
            old(self).has_module(Self::PROVER_VECTOR_MODULE_NAME@),
        ensures
            old(self).grows_to(&*final(self)),
            final(self).wf(),
            final(self).is_fun_qid(r, Self::PROVER_VECTOR_MODULE_NAME@, Self::PROVER_BEGIN_COUNT_RANGE_LAMBDA@),
    {
        self.get_fun_qid(Self::PROVER_VECTOR_MODULE_NAME, Self::PROVER_BEGIN_COUNT_RANGE_LAMBDA)
    }

    /// The qualified id that names `vector_iter::end_count_lambda`; the module must exist.
    pub fn prover_end_count_lambda_qid(&mut self) -> (r: QualifiedId<FunId>)
        requires
            old(self).wf(),
            old(self).has_module(Self::PROVER_VECTOR_MODULE_NAME@),
        ensures
            old(self).grows_to(&*final(self)),
            final(self).wf(),
            final(self).is_fun_qid(r, Self::PROVER_VECTOR_MODULE_NAME@, Self::PROVER_END_COUNT_LAMBDA@),
    {
        self.get_fun_qid(Self::PROVER_VECTOR_MODULE_NAME, Self::PROVER_END_COUNT_LAMBDA)
    }

    /// The qualified id that names `vector_iter::begin_any_lambda`; the module must exist.
    pub fn prover_begin_any_lambda_qid(&mut self) -> (r: QualifiedId<FunId>)
        requires
            old(self).wf(),
            old(self).has_module(Self::PROVER_VECTOR_MODULE_NAME@),
        ensures
            old(self).grows_to(&*final(self)),
            final(self).wf(),
            final(self).is_fun_qid(r, Self::PROVER_VECTOR_MODULE_NAME@, Self::PROVER_BEGIN_ANY_LAMBDA@),
    {
        self.get_fun_qid(Self::PROVER_VECTOR_MODULE_NAME, Self::PROVER_BEGIN_ANY_LAMBDA)
    }

    /// The qualified id that names `vector_iter::begin_any_range_lambda`; the module must exist.
    pub fn prover_begin_any_range_lambda_qid(&mut self) -> (r: QualifiedId<FunId>)
        requires
            old(self).wf(),
            old(self).has_module(Self::PROVER_VECTOR_MODULE_NAME@),
        ensures
            old(self).grows_to(&*final(self)),
            final(self).wf(),
            final(self).is_fun_qid(r, Self::PROVER_VECTOR_MODULE_NAME@, Self::PROVER_BEGIN_ANY_RANGE_LAMBDA@),
    {
        self.get_fun_qid(Self::PROVER_VECTOR_MODULE_NAME, Self::PROVER_BEGIN_ANY_RANGE_LAMBDA)
    }

    /// The qualified id that names `vector_iter::end_any_lambda`; the module must exist.
    pub fn prover_end_any_lambda_qid(&mut self) -> (r: QualifiedId<FunId>)
        requires
            old(self).wf(),
            old(self).has_module(Self::PROVER_VECTOR_MODULE_NAME@),
        ensures
            old(self).grows_to(&*final(self)),
            final(self).wf(),
            final(self).is_fun_qid(r, Self::PROVER_VECTOR_MODULE_NAME@, Self::PROVER_END_ANY_LAMBDA@),
    {
        self.get_fun_qid(Self::PROVER_VECTOR_MODULE_NAME, Self::PROVER_END_ANY_LAMBDA)
    }

    /// The qualified id that names `vector_iter::begin_all_lambda`; the module must exist.
    pub fn prover_begin_all_lambda_qid(&mut self) -> (r: QualifiedId<FunId>)
        requires
            old(self).wf(),
            old(self).has_module(Self::PROVER_VECTOR_MODULE_NAME@),
        ensures
            old(self).grows_to(&*final(self)),
            final(self).wf(),
            final(self).is_fun_qid(r, Self::PROVER_VECTOR_MODULE_NAME@, Self::PROVER_BEGIN_ALL_LAMBDA@),
    {
        self.get_fun_qid(Self::PROVER_VECTOR_MODULE_NAME, Self::PROVER_BEGIN_ALL_LAMBDA)
    }

    /// The qualified id that names `vector_iter::begin_all_range_lambda`; the module must exist.
    pub fn prover_begin_all_range_lambda_qid(&mut self) -> (r: QualifiedId<FunId>)
        requires
            old(self).wf(),
            old(self).has_module(Self::PROVER_VECTOR_MODULE_NAME@),
        ensures
            old(self).grows_to(&*final(self)),
            final(self).wf(),
            final(self).is_fun_qid(r, Self::PROVER_VECTOR_MODULE_NAME@, Self::PROVER_BEGIN_ALL_RANGE_LAMBDA@),
    {
        self.get_fun_qid(Self::PROVER_VECTOR_MODULE_NAME, Self::PROVER_BEGIN_ALL_RANGE_LAMBDA)
    }

    /// The qualified id that names `vector_iter::end_all_lambda`; the module must exist.
    pub fn prover_end_all_lambda_qid(&mut self) -> (r: QualifiedId<FunId>)
        requires
            old(self).wf(),
            old(self).has_module(Self::PROVER_VECTOR_MODULE_NAME@),
        ensures
            old(self).grows_to(&*final(self)),
            final(self).wf(),
            final(self).is_fun_qid(r, Self::PROVER_VECTOR_MODULE_NAME@, Self::PROVER_END_ALL_LAMBDA@),
    {
        self.get_fun_qid(Self::PROVER_VECTOR_MODULE_NAME, Self::PROVER_END_ALL_LAMBDA)
    }

    /// The qualified id that names `vector_iter::begin_sum_map_lambda`; the module must exist.
    pub fn prover_begin_sum_map_lambda_qid(&mut self) -> (r: QualifiedId<FunId>)
        requires
            old(self).wf(),
            old(self).has_module(Self::PROVER_VECTOR_MODULE_NAME@),
        ensures
            old(self).grows_to(&*final(self)),
            final(self).wf(),
            final(self).is_fun_qid(r, Self::PROVER_VECTOR_MODULE_NAME@, Self::PROVER_BEGIN_SUM_MAP_LAMBDA@),
    {
        self.get_fun_qid(Self::PROVER_VECTOR_MODULE_NAME, Self::PROVER_BEGIN_SUM_MAP_LAMBDA)
    }

    /// The qualified id that names `vector_iter::begin_sum_map_range_lambda`; the module must exist.
    pub fn prover_begin_sum_map_range_lambda_qid(&mut self) -> (r: QualifiedId<FunId>)
        requires
            old(self).wf(),
            old(self).has_module(Self::PROVER_VECTOR_MODULE_NAME@),
        ensures
            old(self).grows_to(&*final(self)),
            final(self).wf(),
            final(self).is_fun_qid(r, Self::PROVER_VECTOR_MODULE_NAME@, Self::PROVER_BEGIN_SUM_MAP_RANGE_LAMBDA@),
    {
        self.get_fun_qid(Self::PROVER_VECTOR_MODULE_NAME, Self::PROVER_BEGIN_SUM_MAP_RANGE_LAMBDA)
    }

    /// The qualified id that names `vector_iter::end_sum_map_lambda`; the module must exist.
    pub fn prover_end_sum_map_lambda_qid(&mut self) -> (r: QualifiedId<FunId>)
        requires
            old(self).wf(),
            old(self).has_module(Self::PROVER_VECTOR_MODULE_NAME@),
        ensures
            old(self).grows_to(&*final(self)),
            final(self).wf(),
            final(self).is_fun_qid(r, Self::PROVER_VECTOR_MODULE_NAME@, Self::PROVER_END_SUM_MAP_LAMBDA@),
    {
        self.get_fun_qid(Self::PROVER_VECTOR_MODULE_NAME, Self::PROVER_END_SUM_MAP_LAMBDA)
    }

    /// The qualified id that names `vector_iter::begin_range_map_lambda`; the module must exist.
    pub fn prover_begin_range_map_lambda_qid(&mut self) -> (r: QualifiedId<FunId>)
        requires
            old(self).wf(),
            old(self).has_module(Self::PROVER_VECTOR_MODULE_NAME@),
        ensures
            old(self).grows_to(&*final(self)),
            final(self).wf(),
            final(self).is_fun_qid(r, Self::PROVER_VECTOR_MODULE_NAME@, Self::PROVER_BEGIN_RANGE_MAP_LAMBDA@),
    {
        self.get_fun_qid(Self::PROVER_VECTOR_MODULE_NAME, Self::PROVER_BEGIN_RANGE_MAP_LAMBDA)
    }

    /// The qualified id that names `vector_iter::end_range_map_lambda`; the module must exist.
    pub fn prover_end_range_map_lambda_qid(&mut self) -> (r: QualifiedId<FunId>)
        requires
            old(self).wf(),
            old(self).has_module(Self::PROVER_VECTOR_MODULE_NAME@),
        ensures
            old(self).grows_to(&*final(self)),
            final(self).wf(),
            final(self).is_fun_qid(r, Self::PROVER_VECTOR_MODULE_NAME@, Self::PROVER_END_RANGE_MAP_LAMBDA@),
    {
        self.get_fun_qid(Self::PROVER_VECTOR_MODULE_NAME, Self::PROVER_END_RANGE_MAP_LAMBDA)
    }

    /// The qualified id that names `vector_iter::begin_range_count_lambda`; the module must exist.
    pub fn prover_begin_range_count_lambda_qid(&mut self) -> (r: QualifiedId<FunId>)
        requires
            old(self).wf(),
            old(self).has_module(Self::PROVER_VECTOR_MODULE_NAME@),
        ensures
            old(self).grows_to(&*final(self)),
            final(self).wf(),
            final(self).is_fun_qid(r, Self::PROVER_VECTOR_MODULE_NAME@, Self::PROVER_BEGIN_RANGE_COUNT_LAMBDA@),
    {
        self.get_fun_qid(Self::PROVER_VECTOR_MODULE_NAME, Self::PROVER_BEGIN_RANGE_COUNT_LAMBDA)
    }

    /// The qualified id that names `vector_iter::end_range_count_lambda`; the module must exist.
    pub fn prover_end_range_count_lambda_qid(&mut self) -> (r: QualifiedId<FunId>)
        requires
            old(self).wf(),
            old(self).has_module(Self::PROVER_VECTOR_MODULE_NAME@),
        ensures
            old(self).grows_to(&*final(self)),
            final(self).wf(),
            final(self).is_fun_qid(r, Self::PROVER_VECTOR_MODULE_NAME@, Self::PROVER_END_RANGE_COUNT_LAMBDA@),
    {
        self.get_fun_qid(Self::PROVER_VECTOR_MODULE_NAME, Self::PROVER_END_RANGE_COUNT_LAMBDA)
    }

    /// The qualified id that names `vector_iter::begin_range_sum_map_lambda`; the module must exist.
    pub fn prover_begin_range_sum_map_lambda_qid(&mut self) -> (r: QualifiedId<FunId>)
        requires
            old(self).wf(),
            old(self).has_module(Self::PROVER_VECTOR_MODULE_NAME@),
        ensures
            old(self).grows_to(&*final(self)),
            final(self).wf(),
            final(self).is_fun_qid(r, Self::PROVER_VECTOR_MODULE_NAME@, Self::PROVER_BEGIN_RANGE_SUM_MAP_LAMBDA@),
    {
        self.get_fun_qid(Self::PROVER_VECTOR_MODULE_NAME, Self::PROVER_BEGIN_RANGE_SUM_MAP_LAMBDA)
    }

    /// The qualified id that names `vector_iter::end_range_sum_map_lambda`; the module must exist.
    pub fn prover_end_range_sum_map_lambda_qid(&mut self) -> (r: QualifiedId<FunId>)
        requires
            old(self).wf(),
            old(self).has_module(Self::PROVER_VECTOR_MODULE_NAME@),
        ensures
            old(self).grows_to(&*final(self)),
            final(self).wf(),
            final(self).is_fun_qid(r, Self::PROVER_VECTOR_MODULE_NAME@, Self::PROVER_END_RANGE_SUM_MAP_LAMBDA@),
    {
        self.get_fun_qid(Self::PROVER_VECTOR_MODULE_NAME, Self::PROVER_END_RANGE_SUM_MAP_LAMBDA)
    }

    /// The qualified id that names `vector_iter::range`; the module must exist.
    pub fn prover_range_qid(&mut self) -> (r: QualifiedId<FunId>)
        requires
            old(self).wf(),
            old(self).has_module(Self::PROVER_VECTOR_MODULE_NAME@),
        ensures
            old(self).grows_to(&*final(self)),
            final(self).wf(),
            final(self).is_fun_qid(r, Self::PROVER_VECTOR_MODULE_NAME@, Self::PROVER_RANGE@),
    {
        self.get_fun_qid(Self::PROVER_VECTOR_MODULE_NAME, Self::PROVER_RANGE)
    }

    /// The qualified id of `vector_iter::range`, if the environment declares it.
    pub fn prover_range_qid_opt(&self) -> (r: Option<QualifiedId<FunId>>)
        requires
            self.wf(),
        ensures
            r == self.fun_qid_opt(Self::PROVER_VECTOR_MODULE_NAME@, Self::PROVER_RANGE@),
    {
        self.get_fun_qid_opt(Self::PROVER_VECTOR_MODULE_NAME, Self::PROVER_RANGE)
    }

    /// The qualified id that names `vector_iter::sum`; the module must exist.
    pub fn prover_vec_sum_qid(&mut self) -> (r: QualifiedId<FunId>)
        requires
            old(self).wf(),
            old(self).has_module(Self::PROVER_VECTOR_MODULE_NAME@),
        ensures
            old(self).grows_to(&*final(self)),
            final(self).wf(),
            final(self).is_fun_qid(r, Self::PROVER_VECTOR_MODULE_NAME@, Self::PROVER_VEC_SUM@),
    {
        self.get_fun_qid(Self::PROVER_VECTOR_MODULE_NAME, Self::PROVER_VEC_SUM)
    }

    /// The qualified id of `vector_iter::sum`, if the environment declares it.
    pub fn prover_vec_sum_qid_opt(&self) -> (r: Option<QualifiedId<FunId>>)
        requires
            self.wf(),
        ensures
            r == self.fun_qid_opt(Self::PROVER_VECTOR_MODULE_NAME@, Self::PROVER_VEC_SUM@),
    {
        self.get_fun_qid_opt(Self::PROVER_VECTOR_MODULE_NAME, Self::PROVER_VEC_SUM)
    }

    /// The qualified id that names `vector_iter::sum_range`; the module must exist.
    pub fn prover_vec_sum_range_qid(&mut self) -> (r: QualifiedId<FunId>)
        requires
            old(self).wf(),
            old(self).has_module(Self::PROVER_VECTOR_MODULE_NAME@),
        ensures
            old(self).grows_to(&*final(self)),
            final(self).wf(),
            final(self).is_fun_qid(r, Self::PROVER_VECTOR_MODULE_NAME@, Self::PROVER_VEC_SUM_RANGE@),
    {
        self.get_fun_qid(Self::PROVER_VECTOR_MODULE_NAME, Self::PROVER_VEC_SUM_RANGE)
    }

    /// The qualified id of `vector_iter::sum_range`, if the environment declares it.
    pub fn prover_vec_sum_range_qid_opt(&self) -> (r: Option<QualifiedId<FunId>>)
        requires
            self.wf(),
        ensures
            r == self.fun_qid_opt(Self::PROVER_VECTOR_MODULE_NAME@, Self::PROVER_VEC_SUM_RANGE@),
    {
        self.get_fun_qid_opt(Self::PROVER_VECTOR_MODULE_NAME, Self::PROVER_VEC_SUM_RANGE)
    }

    /// The qualified id that names `vector_iter::slice`; the module must exist.
    pub fn prover_vec_slice_qid(&mut self) -> (r: QualifiedId<FunId>)
        requires
            old(self).wf(),
            old(self).has_module(Self::PROVER_VECTOR_MODULE_NAME@),
        ensures
            old(self).grows_to(&*final(self)),
            final(self).wf(),
            final(self).is_fun_qid(r, Self::PROVER_VECTOR_MODULE_NAME@, Self::PROVER_VEC_SLICE@),
    {
        self.get_fun_qid(Self::PROVER_VECTOR_MODULE_NAME, Self::PROVER_VEC_SLICE)
    }

    /// The qualified id of `vector_iter::slice`, if the environment declares it.
    pub fn prover_vec_slice_qid_opt(&self) -> (r: Option<QualifiedId<FunId>>)
        requires
            self.wf(),
        ensures
            r == self.fun_qid_opt(Self::PROVER_VECTOR_MODULE_NAME@, Self::PROVER_VEC_SLICE@),
    {
        self.get_fun_qid_opt(Self::PROVER_VECTOR_MODULE_NAME, Self::PROVER_VEC_SLICE)
    }

    /// The qualified id that names `vector_ext::append_pure`; the module must exist.
    pub fn prover_vec_append_pure_qid(&mut self) -> (r: QualifiedId<FunId>)
        requires
            old(self).wf(),
            old(self).has_module(Self::PROVER_VECTOR_EXT_MODULE_NAME@),
        ensures
            old(self).grows_to(&*final(self)),
            final(self).wf(),
            final(self).is_fun_qid(r, Self::PROVER_VECTOR_EXT_MODULE_NAME@, Self::PROVER_VEC_APPEND_PURE@),
    {
        self.get_fun_qid(Self::PROVER_VECTOR_EXT_MODULE_NAME, Self::PROVER_VEC_APPEND_PURE)
    }

    /// The qualified id of `vector_ext::append_pure`, if the environment declares it.
    pub fn prover_vec_append_pure_qid_opt(&self) -> (r: Option<QualifiedId<FunId>>)
        requires
            self.wf(),
        ensures
            r == self.fun_qid_opt(Self::PROVER_VECTOR_EXT_MODULE_NAME@, Self::PROVER_VEC_APPEND_PURE@),
    {
        self.get_fun_qid_opt(Self::PROVER_VECTOR_EXT_MODULE_NAME, Self::PROVER_VEC_APPEND_PURE)
    }

    /// The qualified id that names `vector_ext::push_back_pure`; the module must exist.
    pub fn prover_vec_push_back_pure_qid(&mut self) -> (r: QualifiedId<FunId>)
        requires
            old(self).wf(),
            old(self).has_module(Self::PROVER_VECTOR_EXT_MODULE_NAME@),
        ensures
            old(self).grows_to(&*final(self)),
            final(self).wf(),
            final(self).is_fun_qid(r, Self::PROVER_VECTOR_EXT_MODULE_NAME@, Self::PROVER_VEC_PUSH_BACK_PURE@),
    {
        self.get_fun_qid(Self::PROVER_VECTOR_EXT_MODULE_NAME, Self::PROVER_VEC_PUSH_BACK_PURE)
    }

    /// The qualified id that names `vector_ext::pop_back_pure`; the module must exist.
    pub fn prover_vec_pop_back_pure_qid(&mut self) -> (r: QualifiedId<FunId>)
        requires
            old(self).wf(),
            old(self).has_module(Self::PROVER_VECTOR_EXT_MODULE_NAME@),
        ensures
            old(self).grows_to(&*final(self)),
            final(self).wf(),
            final(self).is_fun_qid(r, Self::PROVER_VECTOR_EXT_MODULE_NAME@, Self::PROVER_VEC_POP_BACK_PURE@),
    {
        self.get_fun_qid(Self::PROVER_VECTOR_EXT_MODULE_NAME, Self::PROVER_VEC_POP_BACK_PURE)
    }

    /// The qualified id that names `vector_ext::push_front_pure`; the module must exist.
    pub fn prover_vec_push_front_pure_qid(&mut self) -> (r: QualifiedId<FunId>)
        requires
            old(self).wf(),
            old(self).has_module(Self::PROVER_VECTOR_EXT_MODULE_NAME@),
        ensures
            old(self).grows_to(&*final(self)),
            final(self).wf(),
            final(self).is_fun_qid(r, Self::PROVER_VECTOR_EXT_MODULE_NAME@, Self::PROVER_VEC_PUSH_FRONT_PURE@),
    {
        self.get_fun_qid(Self::PROVER_VECTOR_EXT_MODULE_NAME, Self::PROVER_VEC_PUSH_FRONT_PURE)
    }

    /// The qualified id that names `vector_ext::pop_front_pure`; the module must exist.
    pub fn prover_vec_pop_front_pure_qid(&mut self) -> (r: QualifiedId<FunId>)
        requires
            old(self).wf(),
            old(self).has_module(Self::PROVER_VECTOR_EXT_MODULE_NAME@),
        ensures
            old(self).grows_to(&*final(self)),
            final(self).wf(),
            final(self).is_fun_qid(r, Self::PROVER_VECTOR_EXT_MODULE_NAME@, Self::PROVER_VEC_POP_FRONT_PURE@),
    {
        self.get_fun_qid(Self::PROVER_VECTOR_EXT_MODULE_NAME, Self::PROVER_VEC_POP_FRONT_PURE)
    }

    /// The qualified id that names `vector_ext::insert_pure`; the module must exist.
    pub fn prover_vec_insert_pure_qid(&mut self) -> (r: QualifiedId<FunId>)
        requires
            old(self).wf(),
            old(self).has_module(Self::PROVER_VECTOR_EXT_MODULE_NAME@),
        ensures
            old(self).grows_to(&*final(self)),
            final(self).wf(),
            final(self).is_fun_qid(r, Self::PROVER_VECTOR_EXT_MODULE_NAME@, Self::PROVER_VEC_INSERT_PURE@),
    {
        self.get_fun_qid(Self::PROVER_VECTOR_EXT_MODULE_NAME, Self::PROVER_VEC_INSERT_PURE)
    }

    /// The qualified id that names `vector_ext::remove_pure`; the module must exist.
    pub fn prover_vec_remove_pure_qid(&mut self) -> (r: QualifiedId<FunId>)
        requires
            old(self).wf(),
            old(self).has_module(Self::PROVER_VECTOR_EXT_MODULE_NAME@),
        ensures
            old(self).grows_to(&*final(self)),
            final(self).wf(),
            final(self).is_fun_qid(r, Self::PROVER_VECTOR_EXT_MODULE_NAME@, Self::PROVER_VEC_REMOVE_PURE@),
    {
        self.get_fun_qid(Self::PROVER_VECTOR_EXT_MODULE_NAME, Self::PROVER_VEC_REMOVE_PURE)
    }

    /// The id of the module `vector`, which must exist.
    pub fn vector_module_id(&self) -> (r: ModuleId)
        requires
            self.wf(),
            self.has_module(Self::VECTOR_MODULE_NAME@),
        ensures
            self.first_module(r@ as int, Self::VECTOR_MODULE_NAME@),
    {
        self.find_module_id(Self::VECTOR_MODULE_NAME)
    }

    /// The id of the module `vec_set`, which must exist.
    pub fn vec_set_module_id(&self) -> (r: ModuleId)
        requires
            self.wf(),
            self.has_module(Self::VEC_SET_MODULE_NAME@),
        ensures
            self.first_module(r@ as int, Self::VEC_SET_MODULE_NAME@),
    {
        self.find_module_id(Self::VEC_SET_MODULE_NAME)
    }

    /// The id of the module `vec_map`, which must exist.
    pub fn vec_map_module_id(&self) -> (r: ModuleId)
        requires
            self.wf(),
            self.has_module(Self::VEC_MAP_MODULE_NAME@),
        ensures
            self.first_module(r@ as int, Self::VEC_MAP_MODULE_NAME@),
    {
        self.find_module_id(Self::VEC_MAP_MODULE_NAME)
    }

    /// The id of the module `option`, which must exist.
    pub fn option_module_id(&self) -> (r: ModuleId)
        requires
            self.wf(),
            self.has_module(Self::OPTION_MODULE_NAME@),
        ensures
            self.first_module(r@ as int, Self::OPTION_MODULE_NAME@),
    {
        self.find_module_id(Self::OPTION_MODULE_NAME)
    }

    /// The id of the module `table`, which must exist.
    pub fn table_module_id(&self) -> (r: ModuleId)
        requires
            self.wf(),
            self.has_module(Self::TABLE_MODULE_NAME@),
        ensures
            self.first_module(r@ as int, Self::TABLE_MODULE_NAME@),
    {
        self.find_module_id(Self::TABLE_MODULE_NAME)
    }

    /// The id of the module `object`, which must exist.
    pub fn object_module_id(&self) -> (r: ModuleId)
        requires
            self.wf(),
            self.has_module(Self::OBJECT_MODULE_NAME@),
        ensures
            self.first_module(r@ as int, Self::OBJECT_MODULE_NAME@),
    {
        self.find_module_id(Self::OBJECT_MODULE_NAME)
    }

    /// The id of the module `object_table`, which must exist.
    pub fn object_table_module_id(&self) -> (r: ModuleId)
        requires
            self.wf(),
            self.has_module(Self::OBJECT_TABLE_MODULE_NAME@),
        ensures
            self.first_module(r@ as int, Self::OBJECT_TABLE_MODULE_NAME@),
    {
        self.find_module_id(Self::OBJECT_TABLE_MODULE_NAME)
    }

    /// The id of the module `dynamic_field`, which must exist.
    pub fn dynamic_field_module_id(&self) -> (r: ModuleId)
        requires
            self.wf(),
            self.has_module(Self::DYNAMIC_FIELD_MODULE_NAME@),
        ensures
            self.first_module(r@ as int, Self::DYNAMIC_FIELD_MODULE_NAME@),
    {
        self.find_module_id(Self::DYNAMIC_FIELD_MODULE_NAME)
    }

    /// The id of the module `dynamic_object_field`, which must exist.
    pub fn dynamic_object_module_id(&self) -> (r: ModuleId)
        requires
            self.wf(),
            self.has_module(Self::DYNAMIC_OBJECT_MODULE_NAME@),
        ensures
            self.first_module(r@ as int, Self::DYNAMIC_OBJECT_MODULE_NAME@),
    {
        self.find_module_id(Self::DYNAMIC_OBJECT_MODULE_NAME)
    }

    /// The id of the module `bcs`, which must exist.
    pub fn std_bcs_module_id(&self) -> (r: ModuleId)
        requires
            self.wf(),
            self.has_module(Self::STD_BCS_MODULE_NAME@),
        ensures
            self.first_module(r@ as int, Self::STD_BCS_MODULE_NAME@),
    {
        self.find_module_id(Self::STD_BCS_MODULE_NAME)
    }

    /// The id of the module `debug`, which must exist.
    pub fn std_debug_module_id(&self) -> (r: ModuleId)
        requires
            self.wf(),
            self.has_module(Self::STD_DEBUG_MODULE_NAME@),
        ensures
            self.first_module(r@ as int, Self::STD_DEBUG_MODULE_NAME@),
    {
        self.find_module_id(Self::STD_DEBUG_MODULE_NAME)
    }

    /// The id of the module `hash`, which must exist.
    pub fn std_hash_module_id(&self) -> (r: ModuleId)
        requires
            self.wf(),
            self.has_module(Self::STD_HASH_MODULE_NAME@),
        ensures
            self.first_module(r@ as int, Self::STD_HASH_MODULE_NAME@),
    {
        self.find_module_id(Self::STD_HASH_MODULE_NAME)
    }

    /// The id of the module `integer`, which must exist.
    pub fn std_integer_module_id(&self) -> (r: ModuleId)
        requires
            self.wf(),
            self.has_module(Self::STD_INTEGER_MODULE_NAME@),
        ensures
            self.first_module(r@ as int, Self::STD_INTEGER_MODULE_NAME@),
    {
        self.find_module_id(Self::STD_INTEGER_MODULE_NAME)
    }

    /// The id of the module `real`, which must exist.
    pub fn std_real_module_id(&self) -> (r: ModuleId)
        requires
            self.wf(),
            self.has_module(Self::STD_REAL_MODULE_NAME@),
        ensures
            self.first_module(r@ as int, Self::STD_REAL_MODULE_NAME@),
    {
        self.find_module_id(Self::STD_REAL_MODULE_NAME)
    }

    /// The id of the module `string`, which must exist.
    pub fn std_string_module_id(&self) -> (r: ModuleId)
        requires
            self.wf(),
            self.has_module(Self::STD_STRING_MODULE_NAME@),
        ensures
            self.first_module(r@ as int, Self::STD_STRING_MODULE_NAME@),
    {
        self.find_module_id(Self::STD_STRING_MODULE_NAME)
    }

    /// The id of the module `type_name`, which must exist.
    pub fn std_type_name_module_id(&self) -> (r: ModuleId)
        requires
            self.wf(),
            self.has_module(Self::STD_TYPE_NAME_MODULE_NAME@),
        ensures
            self.first_module(r@ as int, Self::STD_TYPE_NAME_MODULE_NAME@),
    {
        self.find_module_id(Self::STD_TYPE_NAME_MODULE_NAME)
    }

    /// The id of the module `address`, which must exist.
    pub fn sui_address_module_id(&self) -> (r: ModuleId)
        requires
            self.wf(),
            self.has_module(Self::SUI_ADDRESS_MODULE_NAME@),
        ensures
            self.first_module(r@ as int, Self::SUI_ADDRESS_MODULE_NAME@),
    {
        self.find_module_id(Self::SUI_ADDRESS_MODULE_NAME)
    }

    /// The id of the module `types`, which must exist.
    pub fn sui_types_module_id(&self) -> (r: ModuleId)
        requires
            self.wf(),
            self.has_module(Self::SUI_TYPES_MODULE_NAME@),
        ensures
            self.first_module(r@ as int, Self::SUI_TYPES_MODULE_NAME@),
    {
        self.find_module_id(Self::SUI_TYPES_MODULE_NAME)
    }

    /// The id of the module `bls12381`, which must exist.
    pub fn sui_bls12381_module_id(&self) -> (r: ModuleId)
        requires
            self.wf(),
            self.has_module(Self::SUI_BLS12381_MODULE_NAME@),
        ensures
            self.first_module(r@ as int, Self::SUI_BLS12381_MODULE_NAME@),
    {
        self.find_module_id(Self::SUI_BLS12381_MODULE_NAME)
    }

    /// The id of the module `ecdsa_k1`, which must exist.
    pub fn sui_ecdsa_k1_module_id(&self) -> (r: ModuleId)
        requires
            self.wf(),
            self.has_module(Self::SUI_ECDSA_K1_MODULE_NAME@),
        ensures
            self.first_module(r@ as int, Self::SUI_ECDSA_K1_MODULE_NAME@),
    {
        self.find_module_id(Self::SUI_ECDSA_K1_MODULE_NAME)
    }

    /// The id of the module `ecdsa_r1`, which must exist.
    pub fn sui_ecdsa_r1_module_id(&self) -> (r: ModuleId)
        requires
            self.wf(),
            self.has_module(Self::SUI_ECDSA_R1_MODULE_NAME@),
        ensures
            self.first_module(r@ as int, Self::SUI_ECDSA_R1_MODULE_NAME@),
    {
        self.find_module_id(Self::SUI_ECDSA_R1_MODULE_NAME)
    }

    /// The id of the module `ecvrf`, which must exist.
    pub fn sui_ecvrf_module_id(&self) -> (r: ModuleId)
        requires
            self.wf(),
            self.has_module(Self::SUI_ECVRF_MODULE_NAME@),
        ensures
            self.first_module(r@ as int, Self::SUI_ECVRF_MODULE_NAME@),
    {
        self.find_module_id(Self::SUI_ECVRF_MODULE_NAME)
    }

    /// The id of the module `ed25519`, which must exist.
    pub fn sui_ed25519_module_id(&self) -> (r: ModuleId)
        requires
            self.wf(),
            self.has_module(Self::SUI_ED25519_MODULE_NAME@),
        ensures
            self.first_module(r@ as int, Self::SUI_ED25519_MODULE_NAME@),
    {
        self.find_module_id(Self::SUI_ED25519_MODULE_NAME)
    }

    /// The id of the module `groth16`, which must exist.
    pub fn sui_groth16_module_id(&self) -> (r: ModuleId)
        requires
            self.wf(),
            self.has_module(Self::SUI_GROTH16_MODULE_NAME@),
        ensures
            self.first_module(r@ as int, Self::SUI_GROTH16_MODULE_NAME@),
    {
        self.find_module_id(Self::SUI_GROTH16_MODULE_NAME)
    }

    /// The id of the module `group_ops`, which must exist.
    pub fn sui_group_ops_module_id(&self) -> (r: ModuleId)
        requires
            self.wf(),
            self.has_module(Self::SUI_GROUP_OPS_MODULE_NAME@),
        ensures
            self.first_module(r@ as int, Self::SUI_GROUP_OPS_MODULE_NAME@),
    {
        self.find_module_id(Self::SUI_GROUP_OPS_MODULE_NAME)
    }

    /// The id of the module `hash`, which must exist.
    pub fn sui_hash_module_id(&self) -> (r: ModuleId)
        requires
            self.wf(),
            self.has_module(Self::SUI_HASH_MODULE_NAME@),
        ensures
            self.first_module(r@ as int, Self::SUI_HASH_MODULE_NAME@),
    {
        self.find_module_id(Self::SUI_HASH_MODULE_NAME)
    }

    /// The id of the module `hmac`, which must exist.
    pub fn sui_hmac_module_id(&self) -> (r: ModuleId)
        requires
            self.wf(),
            self.has_module(Self::SUI_HMAC_MODULE_NAME@),
        ensures
            self.first_module(r@ as int, Self::SUI_HMAC_MODULE_NAME@),
    {
        self.find_module_id(Self::SUI_HMAC_MODULE_NAME)
    }

    /// The id of the module `nitro_attestation`, which must exist.
    pub fn sui_nitro_attestation_module_id(&self) -> (r: ModuleId)
        requires
            self.wf(),
            self.has_module(Self::SUI_NITRO_ATTESTATION_MODULE_NAME@),
        ensures
            self.first_module(r@ as int, Self::SUI_NITRO_ATTESTATION_MODULE_NAME@),
    {
        self.find_module_id(Self::SUI_NITRO_ATTESTATION_MODULE_NAME)
    }

    /// The id of the module `poseidon`, which must exist.
    pub fn sui_poseidon_module_id(&self) -> (r: ModuleId)
        requires
            self.wf(),
            self.has_module(Self::SUI_POSEIDON_MODULE_NAME@),
        ensures
            self.first_module(r@ as int, Self::SUI_POSEIDON_MODULE_NAME@),
    {
        self.find_module_id(Self::SUI_POSEIDON_MODULE_NAME)
    }

    /// The id of the module `vdf`, which must exist.
    pub fn sui_vdf_module_id(&self) -> (r: ModuleId)
        requires
            self.wf(),
            self.has_module(Self::SUI_VDF_MODULE_NAME@),
        ensures
            self.first_module(r@ as int, Self::SUI_VDF_MODULE_NAME@),
    {
        self.find_module_id(Self::SUI_VDF_MODULE_NAME)
    }

    /// The qualified id that names `prover::requires`; the module must exist.
    pub fn requires_qid(&mut self) -> (r: QualifiedId<FunId>)
        requires
            old(self).wf(),
            old(self).has_module(Self::PROVER_MODULE_NAME@),
        ensures
            old(self).grows_to(&*final(self)),
            final(self).wf(),
            final(self).is_fun_qid(r, Self::PROVER_MODULE_NAME@, Self::REQUIRES_FUNCTION_NAME@),
    {
        self.get_fun_qid(Self::PROVER_MODULE_NAME, Self::REQUIRES_FUNCTION_NAME)
    }

    /// The qualified id that names `prover::ensures`; the module must exist.
    pub fn ensures_qid(&mut self) -> (r: QualifiedId<FunId>)
        requires
            old(self).wf(),
            old(self).has_module(Self::PROVER_MODULE_NAME@),
        ensures
            old(self).grows_to(&*final(self)),
            final(self).wf(),
            final(self).is_fun_qid(r, Self::PROVER_MODULE_NAME@, Self::ENSURES_FUNCTION_NAME@),
    {
        self.get_fun_qid(Self::PROVER_MODULE_NAME, Self::ENSURES_FUNCTION_NAME)
    }

    /// The qualified id that names `prover::asserts`; the module must exist.
    pub fn asserts_qid(&mut self) -> (r: QualifiedId<FunId>)
        requires
            old(self).wf(),
            old(self).has_module(Self::PROVER_MODULE_NAME@),
        ensures
            old(self).grows_to(&*final(self)),
            final(self).wf(),
            final(self).is_fun_qid(r, Self::PROVER_MODULE_NAME@, Self::ASSERTS_FUNCTION_NAME@),
    {
        self.get_fun_qid(Self::PROVER_MODULE_NAME, Self::ASSERTS_FUNCTION_NAME)
    }

    /// The qualified id that names `prover::asserts_of`; the module must exist.
    pub fn asserts_of_qid(&mut self) -> (r: QualifiedId<FunId>)
        requires
            old(self).wf(),
            old(self).has_module(Self::PROVER_MODULE_NAME@),
        ensures
            old(self).grows_to(&*final(self)),
            final(self).wf(),
            final(self).is_fun_qid(r, Self::PROVER_MODULE_NAME@, Self::ASSERTS_OF_FUNCTION_NAME@),
    {
        self.get_fun_qid(Self::PROVER_MODULE_NAME, Self::ASSERTS_OF_FUNCTION_NAME)
    }

    /// The qualified id that names `prover::boogie_split_here`; the module must exist.
    pub fn split_here_qid(&mut self) -> (r: QualifiedId<FunId>)
        requires
            old(self).wf(),
            old(self).has_module(Self::PROVER_MODULE_NAME@),
        ensures
            old(self).grows_to(&*final(self)),
            final(self).wf(),
            final(self).is_fun_qid(r, Self::PROVER_MODULE_NAME@, Self::SPLIT_HERE_FUNCTION_NAME@),
    {
        self.get_fun_qid(Self::PROVER_MODULE_NAME, Self::SPLIT_HERE_FUNCTION_NAME)
    }

    /// The qualified id of `prover::boogie_split_here`, if the environment declares it.
    pub fn split_here_qid_opt(&self) -> (r: Option<QualifiedId<FunId>>)
        requires
            self.wf(),
        ensures
            r == self.fun_qid_opt(Self::PROVER_MODULE_NAME@, Self::SPLIT_HERE_FUNCTION_NAME@),
    {
        self.get_fun_qid_opt(Self::PROVER_MODULE_NAME, Self::SPLIT_HERE_FUNCTION_NAME)
    }

    /// The qualified id that names `prover::boogie_focus`; the module must exist.
    pub fn focus_qid(&mut self) -> (r: QualifiedId<FunId>)
        requires
            old(self).wf(),
            old(self).has_module(Self::PROVER_MODULE_NAME@),
        ensures
            old(self).grows_to(&*final(self)),
            final(self).wf(),
            final(self).is_fun_qid(r, Self::PROVER_MODULE_NAME@, Self::FOCUS_FUNCTION_NAME@),
    {
        self.get_fun_qid(Self::PROVER_MODULE_NAME, Self::FOCUS_FUNCTION_NAME)
    }

    /// The qualified id that names `prover::boogie_allow_path_isolation`; the module must exist.
    pub fn allow_path_isolation_qid(&mut self) -> (r: QualifiedId<FunId>)
        requires
            old(self).wf(),
            old(self).has_module(Self::PROVER_MODULE_NAME@),
        ensures
            old(self).grows_to(&*final(self)),
            final(self).wf(),
            final(self).is_fun_qid(r, Self::PROVER_MODULE_NAME@, Self::ALLOW_PATH_ISOLATION_FUNCTION_NAME@),
    {
        self.get_fun_qid(Self::PROVER_MODULE_NAME, Self::ALLOW_PATH_ISOLATION_FUNCTION_NAME)
    }

    /// The qualified id that names `prover::type_inv`; the module must exist.
    pub fn type_inv_qid(&mut self) -> (r: QualifiedId<FunId>)
        requires
            old(self).wf(),
            old(self).has_module(Self::PROVER_MODULE_NAME@),
        ensures
            old(self).grows_to(&*final(self)),
            final(self).wf(),
            final(self).is_fun_qid(r, Self::PROVER_MODULE_NAME@, Self::TYPE_INV_FUNCTION_NAME@),
    {
        self.get_fun_qid(Self::PROVER_MODULE_NAME, Self::TYPE_INV_FUNCTION_NAME)
    }

    /// The qualified id that names `ghost::global`; the module must exist.
    pub fn global_qid(&mut self) -> (r: QualifiedId<FunId>)
        requires
            old(self).wf(),
            old(self).has_module(Self::SPEC_MODULE_NAME@),
        ensures
            old(self).grows_to(&*final(self)),
            final(self).wf(),
            final(self).is_fun_qid(r, Self::SPEC_MODULE_NAME@, Self::GLOBAL_FUNCTION_NAME@),
    {
        self.get_fun_qid(Self::SPEC_MODULE_NAME, Self::GLOBAL_FUNCTION_NAME)
    }

    /// The qualified id that names `ghost::global_set`; the module must exist.
    pub fn global_set_qid(&mut self) -> (r: QualifiedId<FunId>)
        requires
            old(self).wf(),
            old(self).has_module(Self::SPEC_MODULE_NAME@),
        ensures
            old(self).grows_to(&*final(self)),
            final(self).wf(),
            final(self).is_fun_qid(r, Self::SPEC_MODULE_NAME@, Self::GLOBAL_SET_FUNCTION_NAME@),
    {
        self.get_fun_qid(Self::SPEC_MODULE_NAME, Self::GLOBAL_SET_FUNCTION_NAME)
    }

    /// The qualified id that names `ghost::borrow_mut`; the module must exist.
    pub fn global_borrow_mut_qid(&mut self) -> (r: QualifiedId<FunId>)
        requires
            old(self).wf(),
            old(self).has_module(Self::SPEC_MODULE_NAME@),
        ensures
            old(self).grows_to(&*final(self)),
            final(self).wf(),
            final(self).is_fun_qid(r, Self::SPEC_MODULE_NAME@, Self::GLOBAL_BORROW_MUT_FUNCTION_NAME@),
    {
        self.get_fun_qid(Self::SPEC_MODULE_NAME, Self::GLOBAL_BORROW_MUT_FUNCTION_NAME)
    }

    /// The qualified id that names `ghost::declare_global`; the module must exist.
    pub fn declare_global_qid(&mut self) -> (r: QualifiedId<FunId>)
        requires
            old(self).wf(),
            old(self).has_module(Self::SPEC_MODULE_NAME@),
        ensures
            old(self).grows_to(&*final(self)),
            final(self).wf(),
            final(self).is_fun_qid(r, Self::SPEC_MODULE_NAME@, Self::DECLARE_GLOBAL_FUNCTION_NAME@),
    {
        self.get_fun_qid(Self::SPEC_MODULE_NAME, Self::DECLARE_GLOBAL_FUNCTION_NAME)
    }

    /// The qualified id that names `ghost::declare_global_mut`; the module must exist.
    pub fn declare_global_mut_qid(&mut self) -> (r: QualifiedId<FunId>)
        requires
            old(self).wf(),
            old(self).has_module(Self::SPEC_MODULE_NAME@),
        ensures
            old(self).grows_to(&*final(self)),
            final(self).wf(),
            final(self).is_fun_qid(r, Self::SPEC_MODULE_NAME@, Self::DECLARE_GLOBAL_MUT_FUNCTION_NAME@),
    {
        self.get_fun_qid(Self::SPEC_MODULE_NAME, Self::DECLARE_GLOBAL_MUT_FUNCTION_NAME)
    }

    /// The qualified id that names `ghost::havoc_global`; the module must exist.
    pub fn havoc_global_qid(&mut self) -> (r: QualifiedId<FunId>)
        requires
            old(self).wf(),
            old(self).has_module(Self::SPEC_MODULE_NAME@),
        ensures
            old(self).grows_to(&*final(self)),
            final(self).wf(),
            final(self).is_fun_qid(r, Self::SPEC_MODULE_NAME@, Self::HAVOC_GLOBAL_FUNCTION_NAME@),
    {
        self.get_fun_qid(Self::SPEC_MODULE_NAME, Self::HAVOC_GLOBAL_FUNCTION_NAME)
    }

    /// The qualified id that names `prover::invariant_begin`; the module must exist.
    pub fn invariant_begin_qid(&mut self) -> (r: QualifiedId<FunId>)
        requires
            old(self).wf(),
            old(self).has_module(Self::PROVER_MODULE_NAME@),
        ensures
            old(self).grows_to(&*final(self)),
            final(self).wf(),
            final(self).is_fun_qid(r, Self::PROVER_MODULE_NAME@, Self::INVARIANT_BEGIN_FUNCTION_NAME@),
    {
        self.get_fun_qid(Self::PROVER_MODULE_NAME, Self::INVARIANT_BEGIN_FUNCTION_NAME)
    }

    /// The qualified id that names `prover::invariant_end`; the module must exist.
    pub fn invariant_end_qid(&mut self) -> (r: QualifiedId<FunId>)
        requires
            old(self).wf(),
            old(self).has_module(Self::PROVER_MODULE_NAME@),
        ensures
            old(self).grows_to(&*final(self)),
            final(self).wf(),
            final(self).is_fun_qid(r, Self::PROVER_MODULE_NAME@, Self::INVARIANT_END_FUNCTION_NAME@),
    {
        self.get_fun_qid(Self::PROVER_MODULE_NAME, Self::INVARIANT_END_FUNCTION_NAME)
    }

    /// The qualified id that names `prover::val`; the module must exist.
    pub fn prover_val_qid(&mut self) -> (r: QualifiedId<FunId>)
        requires
            old(self).wf(),
            old(self).has_module(Self::PROVER_MODULE_NAME@),
        ensures
            old(self).grows_to(&*final(self)),
            final(self).wf(),
            final(self).is_fun_qid(r, Self::PROVER_MODULE_NAME@, Self::PROVER_VAL_FUNCTION_NAME@),
    {
        self.get_fun_qid(Self::PROVER_MODULE_NAME, Self::PROVER_VAL_FUNCTION_NAME)
    }

    /// The qualified id that names `prover::ref`; the module must exist.
    pub fn prover_ref_qid(&mut self) -> (r: QualifiedId<FunId>)
        requires
            old(self).wf(),
            old(self).has_module(Self::PROVER_MODULE_NAME@),
        ensures
            old(self).grows_to(&*final(self)),
            final(self).wf(),
            final(self).is_fun_qid(r, Self::PROVER_MODULE_NAME@, Self::PROVER_REF_FUNCTION_NAME@),
    {
        self.get_fun_qid(Self::PROVER_MODULE_NAME, Self::PROVER_REF_FUNCTION_NAME)
    }

    /// The qualified id that names `log::text`; the module must exist.
    pub fn log_text_qid(&mut self) -> (r: QualifiedId<FunId>)
        requires
            old(self).wf(),
            old(self).has_module(Self::LOG_MODULE_NAME@),
        ensures
            old(self).grows_to(&*final(self)),
            final(self).wf(),
            final(self).is_fun_qid(r, Self::LOG_MODULE_NAME@, Self::LOG_TEXT_FUNCTION_NAME@),
    {
        self.get_fun_qid(Self::LOG_MODULE_NAME, Self::LOG_TEXT_FUNCTION_NAME)
    }

    /// The qualified id that names `log::var`; the module must exist.
    pub fn log_var_qid(&mut self) -> (r: QualifiedId<FunId>)
        requires
            old(self).wf(),
            old(self).has_module(Self::LOG_MODULE_NAME@),
        ensures
            old(self).grows_to(&*final(self)),
            final(self).wf(),
            final(self).is_fun_qid(r, Self::LOG_MODULE_NAME@, Self::LOG_VAR_FUNCTION_NAME@),
    {
        self.get_fun_qid(Self::LOG_MODULE_NAME, Self::LOG_VAR_FUNCTION_NAME)
    }

    /// The qualified id that names `log::ghost`; the module must exist.
    pub fn log_ghost_qid(&mut self) -> (r: QualifiedId<FunId>)
        requires
            old(self).wf(),
            old(self).has_module(Self::LOG_MODULE_NAME@),
        ensures
            old(self).grows_to(&*final(self)),
            final(self).wf(),
            final(self).is_fun_qid(r, Self::LOG_MODULE_NAME@, Self::LOG_GHOST_FUNCTION_NAME@),
    {
        self.get_fun_qid(Self::LOG_MODULE_NAME, Self::LOG_GHOST_FUNCTION_NAME)
    }

    /// The qualified id of `vector::reverse`, if the environment declares it.
    pub fn vector_reverse_qid(&self) -> (r: Option<QualifiedId<FunId>>)
        requires
            self.wf(),
        ensures
            r == self.fun_qid_opt(Self::VECTOR_MODULE_NAME@, Self::VECTOR_REVERSE_FUNCTION_NAME@),
    {
        self.get_fun_qid_opt(Self::VECTOR_MODULE_NAME, Self::VECTOR_REVERSE_FUNCTION_NAME)
    }

    /// The qualified id of `vector::append`, if the environment declares it.
    pub fn vector_append_qid(&self) -> (r: Option<QualifiedId<FunId>>)
        requires
            self.wf(),
        ensures
            r == self.fun_qid_opt(Self::VECTOR_MODULE_NAME@, Self::VECTOR_APPEND_FUNCTION_NAME@),
    {
        self.get_fun_qid_opt(Self::VECTOR_MODULE_NAME, Self::VECTOR_APPEND_FUNCTION_NAME)
    }

    /// The qualified id of `vector::is_empty`, if the environment declares it.
    pub fn vector_is_empty_qid(&self) -> (r: Option<QualifiedId<FunId>>)
        requires
            self.wf(),
        ensures
            r == self.fun_qid_opt(Self::VECTOR_MODULE_NAME@, Self::VECTOR_IS_EMPTY_FUNCTION_NAME@),
    {
        self.get_fun_qid_opt(Self::VECTOR_MODULE_NAME, Self::VECTOR_IS_EMPTY_FUNCTION_NAME)
    }

    /// The qualified id of `vector::contains`, if the environment declares it.
    pub fn vector_contains_qid(&self) -> (r: Option<QualifiedId<FunId>>)
        requires
            self.wf(),
        ensures
            r == self.fun_qid_opt(Self::VECTOR_MODULE_NAME@, Self::VECTOR_CONTAINS_FUNCTION_NAME@),
    {
        self.get_fun_qid_opt(Self::VECTOR_MODULE_NAME, Self::VECTOR_CONTAINS_FUNCTION_NAME)
    }

    /// The qualified id of `vector::index_of`, if the environment declares it.
    pub fn vector_index_of_qid(&self) -> (r: Option<QualifiedId<FunId>>)
        requires
            self.wf(),
        ensures
            r == self.fun_qid_opt(Self::VECTOR_MODULE_NAME@, Self::VECTOR_INDEX_OF_FUNCTION_NAME@),
    {
        self.get_fun_qid_opt(Self::VECTOR_MODULE_NAME, Self::VECTOR_INDEX_OF_FUNCTION_NAME)
    }

    /// The qualified id of `vector::remove`, if the environment declares it.
    pub fn vector_remove_qid(&self) -> (r: Option<QualifiedId<FunId>>)
        requires
            self.wf(),
        ensures
            r == self.fun_qid_opt(Self::VECTOR_MODULE_NAME@, Self::VECTOR_REMOVE_FUNCTION_NAME@),
    {
        self.get_fun_qid_opt(Self::VECTOR_MODULE_NAME, Self::VECTOR_REMOVE_FUNCTION_NAME)
    }

    /// The qualified id of `vector::insert`, if the environment declares it.
    pub fn vector_insert_qid(&self) -> (r: Option<QualifiedId<FunId>>)
        requires
            self.wf(),
        ensures
            r == self.fun_qid_opt(Self::VECTOR_MODULE_NAME@, Self::VECTOR_INSERT_FUNCTION_NAME@),
    {
        self.get_fun_qid_opt(Self::VECTOR_MODULE_NAME, Self::VECTOR_INSERT_FUNCTION_NAME)
    }

    /// The qualified id of `vector::swap_remove`, if the environment declares it.
    pub fn vector_swap_remove_qid(&self) -> (r: Option<QualifiedId<FunId>>)
        requires
            self.wf(),
        ensures
            r == self.fun_qid_opt(Self::VECTOR_MODULE_NAME@, Self::VECTOR_SWAP_REMOVE_FUNCTION_NAME@),
    {
        self.get_fun_qid_opt(Self::VECTOR_MODULE_NAME, Self::VECTOR_SWAP_REMOVE_FUNCTION_NAME)
    }

    /// The qualified id of `vector::take`, if the environment declares it.
    pub fn vector_take_qid(&self) -> (r: Option<QualifiedId<FunId>>)
        requires
            self.wf(),
        ensures
            r == self.fun_qid_opt(Self::VECTOR_MODULE_NAME@, Self::VECTOR_TAKE_FUNCTION_NAME@),
    {
        self.get_fun_qid_opt(Self::VECTOR_MODULE_NAME, Self::VECTOR_TAKE_FUNCTION_NAME)
    }

    /// The qualified id of `vector::skip`, if the environment declares it.
    pub fn vector_skip_qid(&self) -> (r: Option<QualifiedId<FunId>>)
        requires
            self.wf(),
        ensures
            r == self.fun_qid_opt(Self::VECTOR_MODULE_NAME@, Self::VECTOR_SKIP_FUNCTION_NAME@),
    {
        self.get_fun_qid_opt(Self::VECTOR_MODULE_NAME, Self::VECTOR_SKIP_FUNCTION_NAME)
    }

    /// The qualified id of `vector::singleton`, if the environment declares it.
    pub fn vector_singleton_qid(&self) -> (r: Option<QualifiedId<FunId>>)
        requires
            self.wf(),
        ensures
            r == self.fun_qid_opt(Self::VECTOR_MODULE_NAME@, Self::VECTOR_SINGLETON_FUNCTION_NAME@),
    {
        self.get_fun_qid_opt(Self::VECTOR_MODULE_NAME, Self::VECTOR_SINGLETON_FUNCTION_NAME)
    }

    /// The qualified id of `vec_set::get_idx_opt`, if the environment declares it.
    pub fn vec_set_get_idx_opt_qid(&self) -> (r: Option<QualifiedId<FunId>>)
        requires
            self.wf(),
        ensures
            r == self.fun_qid_opt(Self::VEC_SET_MODULE_NAME@, Self::VEC_SET_GET_IDX_OPT_FUNCTION_NAME@),
    {
        self.get_fun_qid_opt(Self::VEC_SET_MODULE_NAME, Self::VEC_SET_GET_IDX_OPT_FUNCTION_NAME)
    }

    /// The qualified id of `vec_set::from_keys`, if the environment declares it.
    pub fn vec_set_from_keys_qid(&self) -> (r: Option<QualifiedId<FunId>>)
        requires
            self.wf(),
        ensures
            r == self.fun_qid_opt(Self::VEC_SET_MODULE_NAME@, Self::VEC_SET_FROM_KEYS_FUNCTION_NAME@),
    {
        self.get_fun_qid_opt(Self::VEC_SET_MODULE_NAME, Self::VEC_SET_FROM_KEYS_FUNCTION_NAME)
    }

    /// The qualified id of `vec_set::contains`, if the environment declares it.
    pub fn vec_set_contains_qid(&self) -> (r: Option<QualifiedId<FunId>>)
        requires
            self.wf(),
        ensures
            r == self.fun_qid_opt(Self::VEC_SET_MODULE_NAME@, Self::VEC_SET_CONTAINS_FUNCTION_NAME@),
    {
        self.get_fun_qid_opt(Self::VEC_SET_MODULE_NAME, Self::VEC_SET_CONTAINS_FUNCTION_NAME)
    }

    /// The qualified id of `vec_set::remove`, if the environment declares it.
    pub fn vec_set_remove_qid(&self) -> (r: Option<QualifiedId<FunId>>)
        requires
            self.wf(),
        ensures
            r == self.fun_qid_opt(Self::VEC_SET_MODULE_NAME@, Self::VEC_SET_REMOVE_FUNCTION_NAME@),
    {
        self.get_fun_qid_opt(Self::VEC_SET_MODULE_NAME, Self::VEC_SET_REMOVE_FUNCTION_NAME)
    }

    /// The qualified id of `vec_map::get`, if the environment declares it.
    pub fn vec_map_get_qid(&self) -> (r: Option<QualifiedId<FunId>>)
        requires
            self.wf(),
        ensures
            r == self.fun_qid_opt(Self::VEC_MAP_MODULE_NAME@, Self::VEC_MAP_GET_FUNCTION_NAME@),
    {
        self.get_fun_qid_opt(Self::VEC_MAP_MODULE_NAME, Self::VEC_MAP_GET_FUNCTION_NAME)
    }

    /// The qualified id of `vec_map::get_idx`, if the environment declares it.
    pub fn vec_map_get_idx_qid(&self) -> (r: Option<QualifiedId<FunId>>)
        requires
            self.wf(),
        ensures
            r == self.fun_qid_opt(Self::VEC_MAP_MODULE_NAME@, Self::VEC_MAP_GET_IDX_FUNCTION_NAME@),
    {
        self.get_fun_qid_opt(Self::VEC_MAP_MODULE_NAME, Self::VEC_MAP_GET_IDX_FUNCTION_NAME)
    }

    /// The qualified id of `vec_map::get_idx_opt`, if the environment declares it.
    pub fn vec_map_get_idx_opt_qid(&self) -> (r: Option<QualifiedId<FunId>>)
        requires
            self.wf(),
        ensures
            r == self.fun_qid_opt(Self::VEC_MAP_MODULE_NAME@, Self::VEC_MAP_GET_IDX_OPT_FUNCTION_NAME@),
    {
        self.get_fun_qid_opt(Self::VEC_MAP_MODULE_NAME, Self::VEC_MAP_GET_IDX_OPT_FUNCTION_NAME)
    }

    /// The qualified id of `vec_map::contains`, if the environment declares it.
    pub fn vec_map_contains_qid(&self) -> (r: Option<QualifiedId<FunId>>)
        requires
            self.wf(),
        ensures
            r == self.fun_qid_opt(Self::VEC_MAP_MODULE_NAME@, Self::VEC_MAP_CONTAINS_FUNCTION_NAME@),
    {
        self.get_fun_qid_opt(Self::VEC_MAP_MODULE_NAME, Self::VEC_MAP_CONTAINS_FUNCTION_NAME)
    }

    /// The qualified id of `vec_map::from_keys_values`, if the environment declares it.
    pub fn vec_map_from_keys_values_qid(&self) -> (r: Option<QualifiedId<FunId>>)
        requires
            self.wf(),
        ensures
            r == self.fun_qid_opt(Self::VEC_MAP_MODULE_NAME@, Self::VEC_MAP_FROM_KEYS_VALUES_FUNCTION_NAME@),
    {
        self.get_fun_qid_opt(Self::VEC_MAP_MODULE_NAME, Self::VEC_MAP_FROM_KEYS_VALUES_FUNCTION_NAME)
    }

    /// The qualified id of `vec_map::into_keys_values`, if the environment declares it.
    pub fn vec_map_into_keys_values_qid(&self) -> (r: Option<QualifiedId<FunId>>)
        requires
            self.wf(),
        ensures
            r == self.fun_qid_opt(Self::VEC_MAP_MODULE_NAME@, Self::VEC_MAP_INTO_KEYS_VALUES_FUNCTION_NAME@),
    {
        self.get_fun_qid_opt(Self::VEC_MAP_MODULE_NAME, Self::VEC_MAP_INTO_KEYS_VALUES_FUNCTION_NAME)
    }

    /// The qualified id of `vec_map::keys`, if the environment declares it.
    pub fn vec_map_keys_qid(&self) -> (r: Option<QualifiedId<FunId>>)
        requires
            self.wf(),
        ensures
            r == self.fun_qid_opt(Self::VEC_MAP_MODULE_NAME@, Self::VEC_MAP_KEYS_FUNCTION_NAME@),
    {
        self.get_fun_qid_opt(Self::VEC_MAP_MODULE_NAME, Self::VEC_MAP_KEYS_FUNCTION_NAME)
    }

    /// The qualified id of `vec_map::remove`, if the environment declares it.
    pub fn vec_map_remove_qid(&self) -> (r: Option<QualifiedId<FunId>>)
        requires
            self.wf(),
        ensures
            r == self.fun_qid_opt(Self::VEC_MAP_MODULE_NAME@, Self::VEC_MAP_REMOVE_FUNCTION_NAME@),
    {
        self.get_fun_qid_opt(Self::VEC_MAP_MODULE_NAME, Self::VEC_MAP_REMOVE_FUNCTION_NAME)
    }

    /// The qualified id of `table::new`, if the environment declares it.
    pub fn table_new_qid(&self) -> (r: Option<QualifiedId<FunId>>)
        requires
            self.wf(),
        ensures
            r == self.fun_qid_opt(Self::TABLE_MODULE_NAME@, Self::TABLE_NEW_FUNCTION_NAME@),
    {
        self.get_fun_qid_opt(Self::TABLE_MODULE_NAME, Self::TABLE_NEW_FUNCTION_NAME)
    }

    /// The qualified id of `table::add`, if the environment declares it.
    pub fn table_add_qid(&self) -> (r: Option<QualifiedId<FunId>>)
        requires
            self.wf(),
        ensures
            r == self.fun_qid_opt(Self::TABLE_MODULE_NAME@, Self::TABLE_ADD_FUNCTION_NAME@),
    {
        self.get_fun_qid_opt(Self::TABLE_MODULE_NAME, Self::TABLE_ADD_FUNCTION_NAME)
    }

    /// The qualified id of `table::borrow`, if the environment declares it.
    pub fn table_borrow_qid(&self) -> (r: Option<QualifiedId<FunId>>)
        requires
            self.wf(),
        ensures
            r == self.fun_qid_opt(Self::TABLE_MODULE_NAME@, Self::TABLE_BORROW_FUNCTION_NAME@),
    {
        self.get_fun_qid_opt(Self::TABLE_MODULE_NAME, Self::TABLE_BORROW_FUNCTION_NAME)
    }

    /// The qualified id of `table::borrow_mut`, if the environment declares it.
    pub fn table_borrow_mut_qid(&self) -> (r: Option<QualifiedId<FunId>>)
        requires
            self.wf(),
        ensures
            r == self.fun_qid_opt(Self::TABLE_MODULE_NAME@, Self::TABLE_BORROW_MUT_FUNCTION_NAME@),
    {
        self.get_fun_qid_opt(Self::TABLE_MODULE_NAME, Self::TABLE_BORROW_MUT_FUNCTION_NAME)
    }

    /// The qualified id of `table::remove`, if the environment declares it.
    pub fn table_remove_qid(&self) -> (r: Option<QualifiedId<FunId>>)
        requires
            self.wf(),
        ensures
            r == self.fun_qid_opt(Self::TABLE_MODULE_NAME@, Self::TABLE_REMOVE_FUNCTION_NAME@),
    {
        self.get_fun_qid_opt(Self::TABLE_MODULE_NAME, Self::TABLE_REMOVE_FUNCTION_NAME)
    }

    /// The qualified id of `table::contains`, if the environment declares it.
    pub fn table_contains_qid(&self) -> (r: Option<QualifiedId<FunId>>)
        requires
            self.wf(),
        ensures
            r == self.fun_qid_opt(Self::TABLE_MODULE_NAME@, Self::TABLE_CONTAINS_FUNCTION_NAME@),
    {
        self.get_fun_qid_opt(Self::TABLE_MODULE_NAME, Self::TABLE_CONTAINS_FUNCTION_NAME)
    }

    /// The qualified id of `table::length`, if the environment declares it.
    pub fn table_length_qid(&self) -> (r: Option<QualifiedId<FunId>>)
        requires
            self.wf(),
        ensures
            r == self.fun_qid_opt(Self::TABLE_MODULE_NAME@, Self::TABLE_LENGTH_FUNCTION_NAME@),
    {
        self.get_fun_qid_opt(Self::TABLE_MODULE_NAME, Self::TABLE_LENGTH_FUNCTION_NAME)
    }

    /// The qualified id of `table::is_empty`, if the environment declares it.
    pub fn table_is_empty_qid(&self) -> (r: Option<QualifiedId<FunId>>)
        requires
            self.wf(),
        ensures
            r == self.fun_qid_opt(Self::TABLE_MODULE_NAME@, Self::TABLE_IS_EMPTY_FUNCTION_NAME@),
    {
        self.get_fun_qid_opt(Self::TABLE_MODULE_NAME, Self::TABLE_IS_EMPTY_FUNCTION_NAME)
    }

    /// The qualified id of `table::destroy_empty`, if the environment declares it.
    pub fn table_destroy_empty_qid(&self) -> (r: Option<QualifiedId<FunId>>)
        requires
            self.wf(),
        ensures
            r == self.fun_qid_opt(Self::TABLE_MODULE_NAME@, Self::TABLE_DESTROY_EMPTY_FUNCTION_NAME@),
    {
        self.get_fun_qid_opt(Self::TABLE_MODULE_NAME, Self::TABLE_DESTROY_EMPTY_FUNCTION_NAME)
    }

    /// The qualified id of `table::drop`, if the environment declares it.
    pub fn table_drop_qid(&self) -> (r: Option<QualifiedId<FunId>>)
        requires
            self.wf(),
        ensures
            r == self.fun_qid_opt(Self::TABLE_MODULE_NAME@, Self::TABLE_DROP_FUNCTION_NAME@),
    {
        self.get_fun_qid_opt(Self::TABLE_MODULE_NAME, Self::TABLE_DROP_FUNCTION_NAME)
    }

    /// The qualified id of `object_table::new`, if the environment declares it.
    pub fn object_table_new_qid(&self) -> (r: Option<QualifiedId<FunId>>)
        requires
            self.wf(),
        ensures
            r == self.fun_qid_opt(Self::OBJECT_TABLE_MODULE_NAME@, Self::TABLE_NEW_FUNCTION_NAME@),
    {
        self.get_fun_qid_opt(Self::OBJECT_TABLE_MODULE_NAME, Self::TABLE_NEW_FUNCTION_NAME)
    }

    /// The qualified id of `object_table::add`, if the environment declares it.
    pub fn object_table_add_qid(&self) -> (r: Option<QualifiedId<FunId>>)
        requires
            self.wf(),
        ensures
            r == self.fun_qid_opt(Self::OBJECT_TABLE_MODULE_NAME@, Self::TABLE_ADD_FUNCTION_NAME@),
    {
        self.get_fun_qid_opt(Self::OBJECT_TABLE_MODULE_NAME, Self::TABLE_ADD_FUNCTION_NAME)
    }

    /// The qualified id of `object_table::borrow`, if the environment declares it.
    pub fn object_table_borrow_qid(&self) -> (r: Option<QualifiedId<FunId>>)
        requires
            self.wf(),
        ensures
            r == self.fun_qid_opt(Self::OBJECT_TABLE_MODULE_NAME@, Self::TABLE_BORROW_FUNCTION_NAME@),
    {
        self.get_fun_qid_opt(Self::OBJECT_TABLE_MODULE_NAME, Self::TABLE_BORROW_FUNCTION_NAME)
    }

    /// The qualified id of `object_table::borrow_mut`, if the environment declares it.
    pub fn object_table_borrow_mut_qid(&self) -> (r: Option<QualifiedId<FunId>>)
        requires
            self.wf(),
        ensures
            r == self.fun_qid_opt(Self::OBJECT_TABLE_MODULE_NAME@, Self::TABLE_BORROW_MUT_FUNCTION_NAME@),
    {
        self.get_fun_qid_opt(Self::OBJECT_TABLE_MODULE_NAME, Self::TABLE_BORROW_MUT_FUNCTION_NAME)
    }

    /// The qualified id of `object_table::remove`, if the environment declares it.
    pub fn object_table_remove_qid(&self) -> (r: Option<QualifiedId<FunId>>)
        requires
            self.wf(),
        ensures
            r == self.fun_qid_opt(Self::OBJECT_TABLE_MODULE_NAME@, Self::TABLE_REMOVE_FUNCTION_NAME@),
    {
        self.get_fun_qid_opt(Self::OBJECT_TABLE_MODULE_NAME, Self::TABLE_REMOVE_FUNCTION_NAME)
    }

    /// The qualified id of `object_table::contains`, if the environment declares it.
    pub fn object_table_contains_qid(&self) -> (r: Option<QualifiedId<FunId>>)
        requires
            self.wf(),
        ensures
            r == self.fun_qid_opt(Self::OBJECT_TABLE_MODULE_NAME@, Self::TABLE_CONTAINS_FUNCTION_NAME@),
    {
        self.get_fun_qid_opt(Self::OBJECT_TABLE_MODULE_NAME, Self::TABLE_CONTAINS_FUNCTION_NAME)
    }

    /// The qualified id of `object_table::length`, if the environment declares it.
    pub fn object_table_length_qid(&self) -> (r: Option<QualifiedId<FunId>>)
        requires
            self.wf(),
        ensures
            r == self.fun_qid_opt(Self::OBJECT_TABLE_MODULE_NAME@, Self::TABLE_LENGTH_FUNCTION_NAME@),
    {
        self.get_fun_qid_opt(Self::OBJECT_TABLE_MODULE_NAME, Self::TABLE_LENGTH_FUNCTION_NAME)
    }

    /// The qualified id of `object_table::is_empty`, if the environment declares it.
    pub fn object_table_is_empty_qid(&self) -> (r: Option<QualifiedId<FunId>>)
        requires
            self.wf(),
        ensures
            r == self.fun_qid_opt(Self::OBJECT_TABLE_MODULE_NAME@, Self::TABLE_IS_EMPTY_FUNCTION_NAME@),
    {
        self.get_fun_qid_opt(Self::OBJECT_TABLE_MODULE_NAME, Self::TABLE_IS_EMPTY_FUNCTION_NAME)
    }

    /// The qualified id of `object_table::destroy_empty`, if the environment declares it.
    pub fn object_table_destroy_empty_qid(&self) -> (r: Option<QualifiedId<FunId>>)
        requires
            self.wf(),
        ensures
            r == self.fun_qid_opt(Self::OBJECT_TABLE_MODULE_NAME@, Self::TABLE_DESTROY_EMPTY_FUNCTION_NAME@),
    {
        self.get_fun_qid_opt(Self::OBJECT_TABLE_MODULE_NAME, Self::TABLE_DESTROY_EMPTY_FUNCTION_NAME)
    }

    /// The qualified id of `object_table::value_id`, if the environment declares it.
    pub fn object_table_value_id_qid(&self) -> (r: Option<QualifiedId<FunId>>)
        requires
            self.wf(),
        ensures
            r == self.fun_qid_opt(Self::OBJECT_TABLE_MODULE_NAME@, Self::OBJECT_TABLE_VALUE_ID_FUNCTION_NAME@),
    {
        self.get_fun_qid_opt(Self::OBJECT_TABLE_MODULE_NAME, Self::OBJECT_TABLE_VALUE_ID_FUNCTION_NAME)
    }

    /// The qualified id of `object::borrow_uid`, if the environment declares it.
    pub fn object_borrow_uid_qid(&self) -> (r: Option<QualifiedId<FunId>>)
        requires
            self.wf(),
        ensures
            r == self.fun_qid_opt(Self::OBJECT_MODULE_NAME@, Self::OBJECT_BORROW_UID_FUNCTION_NAME@),
    {
        self.get_fun_qid_opt(Self::OBJECT_MODULE_NAME, Self::OBJECT_BORROW_UID_FUNCTION_NAME)
    }

    /// The qualified id of `dynamic_field::add`, if the environment declares it.
    pub fn dynamic_field_add_qid(&self) -> (r: Option<QualifiedId<FunId>>)
        requires
            self.wf(),
        ensures
            r == self.fun_qid_opt(Self::DYNAMIC_FIELD_MODULE_NAME@, Self::DYNAMIC_FIELD_ADD_FUNCTION_NAME@),
    {
        self.get_fun_qid_opt(Self::DYNAMIC_FIELD_MODULE_NAME, Self::DYNAMIC_FIELD_ADD_FUNCTION_NAME)
    }

    /// The qualified id of `dynamic_field::borrow`, if the environment declares it.
    pub fn dynamic_field_borrow_qid(&self) -> (r: Option<QualifiedId<FunId>>)
        requires
            self.wf(),
        ensures
            r == self.fun_qid_opt(Self::DYNAMIC_FIELD_MODULE_NAME@, Self::DYNAMIC_FIELD_BORROW_FUNCTION_NAME@),
    {
        self.get_fun_qid_opt(Self::DYNAMIC_FIELD_MODULE_NAME, Self::DYNAMIC_FIELD_BORROW_FUNCTION_NAME)
    }

    /// The qualified id of `dynamic_field::borrow_mut`, if the environment declares it.
    pub fn dynamic_field_borrow_mut_qid(&self) -> (r: Option<QualifiedId<FunId>>)
        requires
            self.wf(),
        ensures
            r == self.fun_qid_opt(Self::DYNAMIC_FIELD_MODULE_NAME@, Self::DYNAMIC_FIELD_BORROW_MUT_FUNCTION_NAME@),
    {
        self.get_fun_qid_opt(Self::DYNAMIC_FIELD_MODULE_NAME, Self::DYNAMIC_FIELD_BORROW_MUT_FUNCTION_NAME)
    }

    /// The qualified id of `dynamic_field::remove`, if the environment declares it.
    pub fn dynamic_field_remove_qid(&self) -> (r: Option<QualifiedId<FunId>>)
        requires
            self.wf(),
        ensures
            r == self.fun_qid_opt(Self::DYNAMIC_FIELD_MODULE_NAME@, Self::DYNAMIC_FIELD_REMOVE_FUNCTION_NAME@),
    {
        self.get_fun_qid_opt(Self::DYNAMIC_FIELD_MODULE_NAME, Self::DYNAMIC_FIELD_REMOVE_FUNCTION_NAME)
    }

    /// The qualified id of `dynamic_field::exists`, if the environment declares it.
    pub fn dynamic_field_exists_qid(&self) -> (r: Option<QualifiedId<FunId>>)
        requires
            self.wf(),
        ensures
            r == self.fun_qid_opt(Self::DYNAMIC_FIELD_MODULE_NAME@, Self::DYNAMIC_FIELD_EXISTS_FUNCTION_NAME@),
    {
        self.get_fun_qid_opt(Self::DYNAMIC_FIELD_MODULE_NAME, Self::DYNAMIC_FIELD_EXISTS_FUNCTION_NAME)
    }

    /// The qualified id of `dynamic_field::remove_opt`, if the environment declares it.
    pub fn dynamic_field_remove_if_exists_qid(&self) -> (r: Option<QualifiedId<FunId>>)
        requires
            self.wf(),
        ensures
            r == self.fun_qid_opt(Self::DYNAMIC_FIELD_MODULE_NAME@, Self::DYNAMIC_FIELD_REMOVE_IF_EXISTS_FUNCTION_NAME@),
    {
        self.get_fun_qid_opt(Self::DYNAMIC_FIELD_MODULE_NAME, Self::DYNAMIC_FIELD_REMOVE_IF_EXISTS_FUNCTION_NAME)
    }

    /// The qualified id of `dynamic_field::exists_with_type`, if the environment declares it.
    pub fn dynamic_field_exists_with_type_qid(&self) -> (r: Option<QualifiedId<FunId>>)
        requires
            self.wf(),
        ensures
            r == self.fun_qid_opt(Self::DYNAMIC_FIELD_MODULE_NAME@, Self::DYNAMIC_FIELD_EXISTS_WITH_TYPE_FUNCTION_NAME@),
    {
        self.get_fun_qid_opt(Self::DYNAMIC_FIELD_MODULE_NAME, Self::DYNAMIC_FIELD_EXISTS_WITH_TYPE_FUNCTION_NAME)
    }

    /// The qualified id of `dynamic_object_field::add`, if the environment declares it.
    pub fn dynamic_object_field_add_qid(&self) -> (r: Option<QualifiedId<FunId>>)
        requires
            self.wf(),
        ensures
            r == self.fun_qid_opt(Self::DYNAMIC_OBJECT_MODULE_NAME@, Self::DYNAMIC_FIELD_ADD_FUNCTION_NAME@),
    {
        self.get_fun_qid_opt(Self::DYNAMIC_OBJECT_MODULE_NAME, Self::DYNAMIC_FIELD_ADD_FUNCTION_NAME)
    }

    /// The qualified id of `dynamic_object_field::borrow`, if the environment declares it.
    pub fn dynamic_object_field_borrow_qid(&self) -> (r: Option<QualifiedId<FunId>>)
        requires
            self.wf(),
        ensures
            r == self.fun_qid_opt(Self::DYNAMIC_OBJECT_MODULE_NAME@, Self::DYNAMIC_FIELD_BORROW_FUNCTION_NAME@),
    {
        self.get_fun_qid_opt(Self::DYNAMIC_OBJECT_MODULE_NAME, Self::DYNAMIC_FIELD_BORROW_FUNCTION_NAME)
    }

    /// The qualified id of `dynamic_object_field::borrow_mut`, if the environment declares it.
    pub fn dynamic_object_field_borrow_mut_qid(&self) -> (r: Option<QualifiedId<FunId>>)
        requires
            self.wf(),
        ensures
            r == self.fun_qid_opt(Self::DYNAMIC_OBJECT_MODULE_NAME@, Self::DYNAMIC_FIELD_BORROW_MUT_FUNCTION_NAME@),
    {
        self.get_fun_qid_opt(Self::DYNAMIC_OBJECT_MODULE_NAME, Self::DYNAMIC_FIELD_BORROW_MUT_FUNCTION_NAME)
    }

    /// The qualified id of `dynamic_object_field::remove`, if the environment declares it.
    pub fn dynamic_object_field_remove_qid(&self) -> (r: Option<QualifiedId<FunId>>)
        requires
            self.wf(),
        ensures
            r == self.fun_qid_opt(Self::DYNAMIC_OBJECT_MODULE_NAME@, Self::DYNAMIC_FIELD_REMOVE_FUNCTION_NAME@),
    {
        self.get_fun_qid_opt(Self::DYNAMIC_OBJECT_MODULE_NAME, Self::DYNAMIC_FIELD_REMOVE_FUNCTION_NAME)
    }

    /// The qualified id of `dynamic_object_field::exists`, if the environment declares it.
    pub fn dynamic_object_field_exists_qid(&self) -> (r: Option<QualifiedId<FunId>>)
        requires
            self.wf(),
        ensures
            r == self.fun_qid_opt(Self::DYNAMIC_OBJECT_MODULE_NAME@, Self::DYNAMIC_FIELD_EXISTS_FUNCTION_NAME@),
    {
        self.get_fun_qid_opt(Self::DYNAMIC_OBJECT_MODULE_NAME, Self::DYNAMIC_FIELD_EXISTS_FUNCTION_NAME)
    }

    /// The qualified id of `dynamic_object_field::exists_with_type`, if the environment declares it.
    pub fn dynamic_object_field_exists_with_type_qid(&self) -> (r: Option<QualifiedId<FunId>>)
        requires
            self.wf(),
        ensures
            r == self.fun_qid_opt(Self::DYNAMIC_OBJECT_MODULE_NAME@, Self::DYNAMIC_FIELD_EXISTS_WITH_TYPE_FUNCTION_NAME@),
    {
        self.get_fun_qid_opt(Self::DYNAMIC_OBJECT_MODULE_NAME, Self::DYNAMIC_FIELD_EXISTS_WITH_TYPE_FUNCTION_NAME)
    }

    /// The qualified id of `table_ext::borrow_or_unknown`, if the environment declares it.
    pub fn table_ext_borrow_or_unknown_qid(&self) -> (r: Option<QualifiedId<FunId>>)
        requires
            self.wf(),
        ensures
            r == self.fun_qid_opt(Self::TABLE_EXT_MODULE_NAME@, Self::BORROW_OR_UNKNOWN_FUNCTION_NAME@),
    {
        self.get_fun_qid_opt(Self::TABLE_EXT_MODULE_NAME, Self::BORROW_OR_UNKNOWN_FUNCTION_NAME)
    }

    /// The qualified id of `object_table_ext::borrow_or_unknown`, if the environment declares it.
    pub fn object_table_ext_borrow_or_unknown_qid(&self) -> (r: Option<QualifiedId<FunId>>)
        requires
            self.wf(),
        ensures
            r == self.fun_qid_opt(Self::OBJECT_TABLE_EXT_MODULE_NAME@, Self::BORROW_OR_UNKNOWN_FUNCTION_NAME@),
    {
        self.get_fun_qid_opt(Self::OBJECT_TABLE_EXT_MODULE_NAME, Self::BORROW_OR_UNKNOWN_FUNCTION_NAME)
    }

    /// The qualified id of `dynamic_field_ext::borrow_or_unknown`, if the environment declares it.
    pub fn dynamic_field_ext_borrow_or_unknown_qid(&self) -> (r: Option<QualifiedId<FunId>>)
        requires
            self.wf(),
        ensures
            r == self.fun_qid_opt(Self::DYNAMIC_FIELD_EXT_MODULE_NAME@, Self::BORROW_OR_UNKNOWN_FUNCTION_NAME@),
    {
        self.get_fun_qid_opt(Self::DYNAMIC_FIELD_EXT_MODULE_NAME, Self::BORROW_OR_UNKNOWN_FUNCTION_NAME)
    }

    /// The qualified id of `dynamic_object_field_ext::borrow_or_unknown`, if the environment declares it.
    pub fn dynamic_object_field_ext_borrow_or_unknown_qid(&self) -> (r: Option<QualifiedId<FunId>>)
        requires
            self.wf(),
        ensures
            r == self.fun_qid_opt(Self::DYNAMIC_OBJECT_FIELD_EXT_MODULE_NAME@, Self::BORROW_OR_UNKNOWN_FUNCTION_NAME@),
    {
        self.get_fun_qid_opt(Self::DYNAMIC_OBJECT_FIELD_EXT_MODULE_NAME, Self::BORROW_OR_UNKNOWN_FUNCTION_NAME)
    }

    /// The qualified id of `table_ext::add_pure`, if the environment declares it.
    pub fn table_ext_add_pure_qid(&self) -> (r: Option<QualifiedId<FunId>>)
        requires
            self.wf(),
        ensures
            r == self.fun_qid_opt(Self::TABLE_EXT_MODULE_NAME@, Self::ADD_PURE_FUNCTION_NAME@),
    {
        self.get_fun_qid_opt(Self::TABLE_EXT_MODULE_NAME, Self::ADD_PURE_FUNCTION_NAME)
    }

    /// The qualified id of `table_ext::remove_pure`, if the environment declares it.
    pub fn table_ext_remove_pure_qid(&self) -> (r: Option<QualifiedId<FunId>>)
        requires
            self.wf(),
        ensures
            r == self.fun_qid_opt(Self::TABLE_EXT_MODULE_NAME@, Self::REMOVE_PURE_FUNCTION_NAME@),
    {
        self.get_fun_qid_opt(Self::TABLE_EXT_MODULE_NAME, Self::REMOVE_PURE_FUNCTION_NAME)
    }

    /// The qualified id of `object_table_ext::add_pure`, if the environment declares it.
    pub fn object_table_ext_add_pure_qid(&self) -> (r: Option<QualifiedId<FunId>>)
        requires
            self.wf(),
        ensures
            r == self.fun_qid_opt(Self::OBJECT_TABLE_EXT_MODULE_NAME@, Self::ADD_PURE_FUNCTION_NAME@),
    {
        self.get_fun_qid_opt(Self::OBJECT_TABLE_EXT_MODULE_NAME, Self::ADD_PURE_FUNCTION_NAME)
    }

    /// The qualified id of `object_table_ext::remove_pure`, if the environment declares it.
    pub fn object_table_ext_remove_pure_qid(&self) -> (r: Option<QualifiedId<FunId>>)
        requires
            self.wf(),
        ensures
            r == self.fun_qid_opt(Self::OBJECT_TABLE_EXT_MODULE_NAME@, Self::REMOVE_PURE_FUNCTION_NAME@),
    {
        self.get_fun_qid_opt(Self::OBJECT_TABLE_EXT_MODULE_NAME, Self::REMOVE_PURE_FUNCTION_NAME)
    }

    /// The qualified id of `vector_ext::borrow_or_unknown`, if the environment declares it.
    pub fn prover_vec_borrow_or_unknown_qid_opt(&self) -> (r: Option<QualifiedId<FunId>>)
        requires
            self.wf(),
        ensures
            r == self.fun_qid_opt(Self::PROVER_VECTOR_EXT_MODULE_NAME@, Self::BORROW_OR_UNKNOWN_FUNCTION_NAME@),
    {
        self.get_fun_qid_opt(Self::PROVER_VECTOR_EXT_MODULE_NAME, Self::BORROW_OR_UNKNOWN_FUNCTION_NAME)
    }

    /// The qualified id of `vec_set_ext::insert_pure`, if the environment declares it.
    pub fn vec_set_ext_insert_pure_qid_opt(&self) -> (r: Option<QualifiedId<FunId>>)
        requires
            self.wf(),
        ensures
            r == self.fun_qid_opt(Self::VEC_SET_EXT_MODULE_NAME@, Self::INSERT_PURE_FUNCTION_NAME@),
    {
        self.get_fun_qid_opt(Self::VEC_SET_EXT_MODULE_NAME, Self::INSERT_PURE_FUNCTION_NAME)
    }

    /// The qualified id of `vec_set_ext::remove_pure`, if the environment declares it.
    pub fn vec_set_ext_remove_pure_qid_opt(&self) -> (r: Option<QualifiedId<FunId>>)
        requires
            self.wf(),
        ensures
            r == self.fun_qid_opt(Self::VEC_SET_EXT_MODULE_NAME@, Self::REMOVE_PURE_FUNCTION_NAME@),
    {
        self.get_fun_qid_opt(Self::VEC_SET_EXT_MODULE_NAME, Self::REMOVE_PURE_FUNCTION_NAME)
    }

    /// The qualified id of `vec_map_ext::get_or_unknown`, if the environment declares it.
    pub fn vec_map_ext_get_or_unknown_qid_opt(&self) -> (r: Option<QualifiedId<FunId>>)
        requires
            self.wf(),
        ensures
            r == self.fun_qid_opt(Self::VEC_MAP_EXT_MODULE_NAME@, Self::GET_OR_UNKNOWN_FUNCTION_NAME@),
    {
        self.get_fun_qid_opt(Self::VEC_MAP_EXT_MODULE_NAME, Self::GET_OR_UNKNOWN_FUNCTION_NAME)
    }

    /// The qualified id of `vec_map_ext::get_idx_or_unknown`, if the environment declares it.
    pub fn vec_map_ext_get_idx_or_unknown_qid_opt(&self) -> (r: Option<QualifiedId<FunId>>)
        requires
            self.wf(),
        ensures
            r == self.fun_qid_opt(Self::VEC_MAP_EXT_MODULE_NAME@, Self::GET_IDX_OR_UNKNOWN_FUNCTION_NAME@),
    {
        self.get_fun_qid_opt(Self::VEC_MAP_EXT_MODULE_NAME, Self::GET_IDX_OR_UNKNOWN_FUNCTION_NAME)
    }

    /// The qualified id of `vec_map_ext::get_entry_by_idx_or_unknown`, if the environment declares it.
    pub fn vec_map_ext_get_entry_by_idx_or_unknown_qid_opt(&self) -> (r: Option<QualifiedId<FunId>>)
        requires
            self.wf(),
        ensures
            r == self.fun_qid_opt(Self::VEC_MAP_EXT_MODULE_NAME@, Self::GET_ENTRY_BY_IDX_OR_UNKNOWN_FUNCTION_NAME@),
    {
        self.get_fun_qid_opt(Self::VEC_MAP_EXT_MODULE_NAME, Self::GET_ENTRY_BY_IDX_OR_UNKNOWN_FUNCTION_NAME)
    }

    /// The qualified id of `vec_map_ext::insert_pure`, if the environment declares it.
    pub fn vec_map_ext_insert_pure_qid_opt(&self) -> (r: Option<QualifiedId<FunId>>)
        requires
            self.wf(),
        ensures
            r == self.fun_qid_opt(Self::VEC_MAP_EXT_MODULE_NAME@, Self::INSERT_PURE_FUNCTION_NAME@),
    {
        self.get_fun_qid_opt(Self::VEC_MAP_EXT_MODULE_NAME, Self::INSERT_PURE_FUNCTION_NAME)
    }

    /// The qualified id of `vec_map_ext::remove_pure`, if the environment declares it.
    pub fn vec_map_ext_remove_pure_qid_opt(&self) -> (r: Option<QualifiedId<FunId>>)
        requires
            self.wf(),
        ensures
            r == self.fun_qid_opt(Self::VEC_MAP_EXT_MODULE_NAME@, Self::REMOVE_PURE_FUNCTION_NAME@),
    {
        self.get_fun_qid_opt(Self::VEC_MAP_EXT_MODULE_NAME, Self::REMOVE_PURE_FUNCTION_NAME)
    }

    /// The qualified id of `vector::empty`, if the environment declares it.
    pub fn std_vector_empty_qid(&self) -> (r: Option<QualifiedId<FunId>>)
        requires
            self.wf(),
        ensures
            r == self.fun_qid_opt(Self::VECTOR_MODULE_NAME@, Self::VECTOR_MAGIC_EMPTY_FUNCTION_NAME@),
    {
        self.get_fun_qid_opt(Self::VECTOR_MODULE_NAME, Self::VECTOR_MAGIC_EMPTY_FUNCTION_NAME)
    }

    /// The qualified id of `vector::length`, if the environment declares it.
    pub fn std_vector_length_qid(&self) -> (r: Option<QualifiedId<FunId>>)
        requires
            self.wf(),
        ensures
            r == self.fun_qid_opt(Self::VECTOR_MODULE_NAME@, Self::VECTOR_SIZE_DETECTIVE_FUNCTION_NAME@),
    {
        self.get_fun_qid_opt(Self::VECTOR_MODULE_NAME, Self::VECTOR_SIZE_DETECTIVE_FUNCTION_NAME)
    }

    /// The qualified id of `vector::borrow`, if the environment declares it.
    pub fn std_vector_borrow_qid(&self) -> (r: Option<QualifiedId<FunId>>)
        requires
            self.wf(),
        ensures
            r == self.fun_qid_opt(Self::VECTOR_MODULE_NAME@, Self::VECTOR_PEEK_A_BOO_FUNCTION_NAME@),
    {
        self.get_fun_qid_opt(Self::VECTOR_MODULE_NAME, Self::VECTOR_PEEK_A_BOO_FUNCTION_NAME)
    }

    /// The qualified id of `vector::push_back`, if the environment declares it.
    pub fn std_vector_push_back_qid(&self) -> (r: Option<QualifiedId<FunId>>)
        requires
            self.wf(),
        ensures
            r == self.fun_qid_opt(Self::VECTOR_MODULE_NAME@, Self::VECTOR_STACK_PUSHER_FUNCTION_NAME@),
    {
        self.get_fun_qid_opt(Self::VECTOR_MODULE_NAME, Self::VECTOR_STACK_PUSHER_FUNCTION_NAME)
    }

    /// The qualified id of `vector::borrow_mut`, if the environment declares it.
    pub fn std_vector_borrow_mut_qid(&self) -> (r: Option<QualifiedId<FunId>>)
        requires
            self.wf(),
        ensures
            r == self.fun_qid_opt(Self::VECTOR_MODULE_NAME@, Self::VECTOR_MUTANT_PEEKER_FUNCTION_NAME@),
    {
        self.get_fun_qid_opt(Self::VECTOR_MODULE_NAME, Self::VECTOR_MUTANT_PEEKER_FUNCTION_NAME)
    }

    /// The qualified id of `vector::pop_back`, if the environment declares it.
    pub fn std_vector_pop_back_qid(&self) -> (r: Option<QualifiedId<FunId>>)
        requires
            self.wf(),
        ensures
            r == self.fun_qid_opt(Self::VECTOR_MODULE_NAME@, Self::VECTOR_STACK_POPPER_FUNCTION_NAME@),
    {
        self.get_fun_qid_opt(Self::VECTOR_MODULE_NAME, Self::VECTOR_STACK_POPPER_FUNCTION_NAME)
    }

    /// The qualified id of `vector::destroy_empty`, if the environment declares it.
    pub fn std_vector_destroy_empty_qid(&self) -> (r: Option<QualifiedId<FunId>>)
        requires
            self.wf(),
        ensures
            r == self.fun_qid_opt(Self::VECTOR_MODULE_NAME@, Self::VECTOR_DESTRUCTION_DERBY_FUNCTION_NAME@),
    {
        self.get_fun_qid_opt(Self::VECTOR_MODULE_NAME, Self::VECTOR_DESTRUCTION_DERBY_FUNCTION_NAME)
    }

    /// The qualified id of `vector::swap`, if the environment declares it.
    pub fn std_vector_swap_qid(&self) -> (r: Option<QualifiedId<FunId>>)
        requires
            self.wf(),
        ensures
            r == self.fun_qid_opt(Self::VECTOR_MODULE_NAME@, Self::VECTOR_SWITCHEROO_FUNCTION_NAME@),
    {
        self.get_fun_qid_opt(Self::VECTOR_MODULE_NAME, Self::VECTOR_SWITCHEROO_FUNCTION_NAME)
    }

    /// The qualified id of `hash::sha2_256`, if the environment declares it.
    pub fn std_hash_sha2_256_qid(&self) -> (r: Option<QualifiedId<FunId>>)
        requires
            self.wf(),
        ensures
            r == self.fun_qid_opt(Self::STD_HASH_MODULE_NAME@, Self::HASH_SHA2_FUNCTION_NAME@),
    {
        self.get_fun_qid_opt(Self::STD_HASH_MODULE_NAME, Self::HASH_SHA2_FUNCTION_NAME)
    }

    /// The qualified id of `hash::sha3_256`, if the environment declares it.
    pub fn std_hash_sha3_256_qid(&self) -> (r: Option<QualifiedId<FunId>>)
        requires
            self.wf(),
        ensures
            r == self.fun_qid_opt(Self::STD_HASH_MODULE_NAME@, Self::HASH_SHA3_FUNCTION_NAME@),
    {
        self.get_fun_qid_opt(Self::STD_HASH_MODULE_NAME, Self::HASH_SHA3_FUNCTION_NAME)
    }

    /// The qualified id of `bcs::to_bytes`, if the environment declares it.
    pub fn std_bcs_to_bytes_qid(&self) -> (r: Option<QualifiedId<FunId>>)
        requires
            self.wf(),
        ensures
            r == self.fun_qid_opt(Self::STD_BCS_MODULE_NAME@, Self::BCS_BYTE_TRANSFORMER_FUNCTION_NAME@),
    {
        self.get_fun_qid_opt(Self::STD_BCS_MODULE_NAME, Self::BCS_BYTE_TRANSFORMER_FUNCTION_NAME)
    }

    /// The qualified id of `debug::print`, if the environment declares it.
    pub fn std_debug_print_qid(&self) -> (r: Option<QualifiedId<FunId>>)
        requires
            self.wf(),
        ensures
            r == self.fun_qid_opt(Self::STD_DEBUG_MODULE_NAME@, Self::DEBUG_PRINT_FUNCTION_NAME@),
    {
        self.get_fun_qid_opt(Self::STD_DEBUG_MODULE_NAME, Self::DEBUG_PRINT_FUNCTION_NAME)
    }

    /// The qualified id of `debug::print_stack_trace`, if the environment declares it.
    pub fn std_debug_print_stack_trace_qid(&self) -> (r: Option<QualifiedId<FunId>>)
        requires
            self.wf(),
        ensures
            r == self.fun_qid_opt(Self::STD_DEBUG_MODULE_NAME@, Self::DEBUG_PRINT_TRACE_FUNCTION_NAME@),
    {
        self.get_fun_qid_opt(Self::STD_DEBUG_MODULE_NAME, Self::DEBUG_PRINT_TRACE_FUNCTION_NAME)
    }

    /// The qualified id of `type_name::with_defining_ids`, if the environment declares it.
    pub fn std_type_name_with_defining_ids_qid(&self) -> (r: Option<QualifiedId<FunId>>)
        requires
            self.wf(),
        ensures
            r == self.fun_qid_opt(Self::STD_TYPE_NAME_MODULE_NAME@, Self::TYPE_NAME_WITH_DEFINING_IDS_FUNCTION_NAME@),
    {
        self.get_fun_qid_opt(Self::STD_TYPE_NAME_MODULE_NAME, Self::TYPE_NAME_WITH_DEFINING_IDS_FUNCTION_NAME)
    }

    /// The qualified id of `type_name::with_original_ids`, if the environment declares it.
    pub fn std_type_name_with_original_ids_qid(&self) -> (r: Option<QualifiedId<FunId>>)
        requires
            self.wf(),
        ensures
            r == self.fun_qid_opt(Self::STD_TYPE_NAME_MODULE_NAME@, Self::TYPE_NAME_WITH_ORIGINAL_IDS_FUNCTION_NAME@),
    {
        self.get_fun_qid_opt(Self::STD_TYPE_NAME_MODULE_NAME, Self::TYPE_NAME_WITH_ORIGINAL_IDS_FUNCTION_NAME)
    }

    /// The qualified id of `type_name::defining_id`, if the environment declares it.
    pub fn std_type_name_defining_id_qid(&self) -> (r: Option<QualifiedId<FunId>>)
        requires
            self.wf(),
        ensures
            r == self.fun_qid_opt(Self::STD_TYPE_NAME_MODULE_NAME@, Self::TYPE_NAME_DEFINING_ID_FUNCTION_NAME@),
    {
        self.get_fun_qid_opt(Self::STD_TYPE_NAME_MODULE_NAME, Self::TYPE_NAME_DEFINING_ID_FUNCTION_NAME)
    }

    /// The qualified id of `type_name::original_id`, if the environment declares it.
    pub fn std_type_name_original_id_qid(&self) -> (r: Option<QualifiedId<FunId>>)
        requires
            self.wf(),
        ensures
            r == self.fun_qid_opt(Self::STD_TYPE_NAME_MODULE_NAME@, Self::TYPE_NAME_ORIGINAL_ID_FUNCTION_NAME@),
    {
        self.get_fun_qid_opt(Self::STD_TYPE_NAME_MODULE_NAME, Self::TYPE_NAME_ORIGINAL_ID_FUNCTION_NAME)
    }

    /// The qualified id of `string::internal_check_utf8`, if the environment declares it.
    pub fn std_string_internal_check_utf8_qid(&self) -> (r: Option<QualifiedId<FunId>>)
        requires
            self.wf(),
        ensures
            r == self.fun_qid_opt(Self::STD_STRING_MODULE_NAME@, Self::STRING_CHECK_UTF8_FUNCTION_NAME@),
    {
        self.get_fun_qid_opt(Self::STD_STRING_MODULE_NAME, Self::STRING_CHECK_UTF8_FUNCTION_NAME)
    }

    /// The qualified id of `string::internal_is_char_boundary`, if the environment declares it.
    pub fn std_string_internal_is_char_boundary_qid(&self) -> (r: Option<QualifiedId<FunId>>)
        requires
            self.wf(),
        ensures
            r == self.fun_qid_opt(Self::STD_STRING_MODULE_NAME@, Self::STRING_IS_CHAR_BOUNDARY_FUNCTION_NAME@),
    {
        self.get_fun_qid_opt(Self::STD_STRING_MODULE_NAME, Self::STRING_IS_CHAR_BOUNDARY_FUNCTION_NAME)
    }

    /// The qualified id of `string::internal_sub_string`, if the environment declares it.
    pub fn std_string_internal_sub_string_qid(&self) -> (r: Option<QualifiedId<FunId>>)
        requires
            self.wf(),
        ensures
            r == self.fun_qid_opt(Self::STD_STRING_MODULE_NAME@, Self::STRING_SUB_STRING_FUNCTION_NAME@),
    {
        self.get_fun_qid_opt(Self::STD_STRING_MODULE_NAME, Self::STRING_SUB_STRING_FUNCTION_NAME)
    }

    /// The qualified id of `string::internal_index_of`, if the environment declares it.
    pub fn std_string_internal_index_of_qid(&self) -> (r: Option<QualifiedId<FunId>>)
        requires
            self.wf(),
        ensures
            r == self.fun_qid_opt(Self::STD_STRING_MODULE_NAME@, Self::STRING_INDEX_OF_FUNCTION_NAME@),
    {
        self.get_fun_qid_opt(Self::STD_STRING_MODULE_NAME, Self::STRING_INDEX_OF_FUNCTION_NAME)
    }

    /// The qualified id of `integer::from_u8`, if the environment declares it.
    pub fn std_integer_from_u8_qid(&self) -> (r: Option<QualifiedId<FunId>>)
        requires
            self.wf(),
        ensures
            r == self.fun_qid_opt(Self::STD_INTEGER_MODULE_NAME@, Self::INTEGER_FROM_U8_FUNCTION_NAME@),
    {
        self.get_fun_qid_opt(Self::STD_INTEGER_MODULE_NAME, Self::INTEGER_FROM_U8_FUNCTION_NAME)
    }

    /// The qualified id of `integer::from_u16`, if the environment declares it.
    pub fn std_integer_from_u16_qid(&self) -> (r: Option<QualifiedId<FunId>>)
        requires
            self.wf(),
        ensures
            r == self.fun_qid_opt(Self::STD_INTEGER_MODULE_NAME@, Self::INTEGER_FROM_U16_FUNCTION_NAME@),
    {
        self.get_fun_qid_opt(Self::STD_INTEGER_MODULE_NAME, Self::INTEGER_FROM_U16_FUNCTION_NAME)
    }

    /// The qualified id of `integer::from_u32`, if the environment declares it.
    pub fn std_integer_from_u32_qid(&self) -> (r: Option<QualifiedId<FunId>>)
        requires
            self.wf(),
        ensures
            r == self.fun_qid_opt(Self::STD_INTEGER_MODULE_NAME@, Self::INTEGER_FROM_U32_FUNCTION_NAME@),
    {
        self.get_fun_qid_opt(Self::STD_INTEGER_MODULE_NAME, Self::INTEGER_FROM_U32_FUNCTION_NAME)
    }

    /// The qualified id of `integer::from_u64`, if the environment declares it.
    pub fn std_integer_from_u64_qid(&self) -> (r: Option<QualifiedId<FunId>>)
        requires
            self.wf(),
        ensures
            r == self.fun_qid_opt(Self::STD_INTEGER_MODULE_NAME@, Self::INTEGER_FROM_U64_FUNCTION_NAME@),
    {
        self.get_fun_qid_opt(Self::STD_INTEGER_MODULE_NAME, Self::INTEGER_FROM_U64_FUNCTION_NAME)
    }

    /// The qualified id of `integer::from_u128`, if the environment declares it.
    pub fn std_integer_from_u128_qid(&self) -> (r: Option<QualifiedId<FunId>>)
        requires
            self.wf(),
        ensures
            r == self.fun_qid_opt(Self::STD_INTEGER_MODULE_NAME@, Self::INTEGER_FROM_U128_FUNCTION_NAME@),
    {
        self.get_fun_qid_opt(Self::STD_INTEGER_MODULE_NAME, Self::INTEGER_FROM_U128_FUNCTION_NAME)
    }

    /// The qualified id of `integer::from_u256`, if the environment declares it.
    pub fn std_integer_from_u256_qid(&self) -> (r: Option<QualifiedId<FunId>>)
        requires
            self.wf(),
        ensures
            r == self.fun_qid_opt(Self::STD_INTEGER_MODULE_NAME@, Self::INTEGER_FROM_U256_FUNCTION_NAME@),
    {
        self.get_fun_qid_opt(Self::STD_INTEGER_MODULE_NAME, Self::INTEGER_FROM_U256_FUNCTION_NAME)
    }

    /// The qualified id of `integer::to_u8`, if the environment declares it.
    pub fn std_integer_to_u8_qid(&self) -> (r: Option<QualifiedId<FunId>>)
        requires
            self.wf(),
        ensures
            r == self.fun_qid_opt(Self::STD_INTEGER_MODULE_NAME@, Self::INTEGER_TO_U8_FUNCTION_NAME@),
    {
        self.get_fun_qid_opt(Self::STD_INTEGER_MODULE_NAME, Self::INTEGER_TO_U8_FUNCTION_NAME)
    }

    /// The qualified id of `integer::to_u16`, if the environment declares it.
    pub fn std_integer_to_u16_qid(&self) -> (r: Option<QualifiedId<FunId>>)
        requires
            self.wf(),
        ensures
            r == self.fun_qid_opt(Self::STD_INTEGER_MODULE_NAME@, Self::INTEGER_TO_U16_FUNCTION_NAME@),
    {
        self.get_fun_qid_opt(Self::STD_INTEGER_MODULE_NAME, Self::INTEGER_TO_U16_FUNCTION_NAME)
    }

    /// The qualified id of `integer::to_u32`, if the environment declares it.
    pub fn std_integer_to_u32_qid(&self) -> (r: Option<QualifiedId<FunId>>)
        requires
            self.wf(),
        ensures
            r == self.fun_qid_opt(Self::STD_INTEGER_MODULE_NAME@, Self::INTEGER_TO_U32_FUNCTION_NAME@),
    {
        self.get_fun_qid_opt(Self::STD_INTEGER_MODULE_NAME, Self::INTEGER_TO_U32_FUNCTION_NAME)
    }

    /// The qualified id of `integer::to_u64`, if the environment declares it.
    pub fn std_integer_to_u64_qid(&self) -> (r: Option<QualifiedId<FunId>>)
        requires
            self.wf(),
        ensures
            r == self.fun_qid_opt(Self::STD_INTEGER_MODULE_NAME@, Self::INTEGER_TO_U64_FUNCTION_NAME@),
    {
        self.get_fun_qid_opt(Self::STD_INTEGER_MODULE_NAME, Self::INTEGER_TO_U64_FUNCTION_NAME)
    }

    /// The qualified id of `integer::to_u128`, if the environment declares it.
    pub fn std_integer_to_u128_qid(&self) -> (r: Option<QualifiedId<FunId>>)
        requires
            self.wf(),
        ensures
            r == self.fun_qid_opt(Self::STD_INTEGER_MODULE_NAME@, Self::INTEGER_TO_U128_FUNCTION_NAME@),
    {
        self.get_fun_qid_opt(Self::STD_INTEGER_MODULE_NAME, Self::INTEGER_TO_U128_FUNCTION_NAME)
    }

    /// The qualified id of `integer::to_u256`, if the environment declares it.
    pub fn std_integer_to_u256_qid(&self) -> (r: Option<QualifiedId<FunId>>)
        requires
            self.wf(),
        ensures
            r == self.fun_qid_opt(Self::STD_INTEGER_MODULE_NAME@, Self::INTEGER_TO_U256_FUNCTION_NAME@),
    {
        self.get_fun_qid_opt(Self::STD_INTEGER_MODULE_NAME, Self::INTEGER_TO_U256_FUNCTION_NAME)
    }

    /// The qualified id of `integer::add`, if the environment declares it.
    pub fn std_integer_add_qid(&self) -> (r: Option<QualifiedId<FunId>>)
        requires
            self.wf(),
        ensures
            r == self.fun_qid_opt(Self::STD_INTEGER_MODULE_NAME@, Self::INTEGER_ADD_FUNCTION_NAME@),
    {
        self.get_fun_qid_opt(Self::STD_INTEGER_MODULE_NAME, Self::INTEGER_ADD_FUNCTION_NAME)
    }

    /// The qualified id of `integer::sub`, if the environment declares it.
    pub fn std_integer_sub_qid(&self) -> (r: Option<QualifiedId<FunId>>)
        requires
            self.wf(),
        ensures
            r == self.fun_qid_opt(Self::STD_INTEGER_MODULE_NAME@, Self::INTEGER_SUB_FUNCTION_NAME@),
    {
        self.get_fun_qid_opt(Self::STD_INTEGER_MODULE_NAME, Self::INTEGER_SUB_FUNCTION_NAME)
    }

    /// The qualified id of `integer::neg`, if the environment declares it.
    pub fn std_integer_neg_qid(&self) -> (r: Option<QualifiedId<FunId>>)
        requires
            self.wf(),
        ensures
            r == self.fun_qid_opt(Self::STD_INTEGER_MODULE_NAME@, Self::INTEGER_NEG_FUNCTION_NAME@),
    {
        self.get_fun_qid_opt(Self::STD_INTEGER_MODULE_NAME, Self::INTEGER_NEG_FUNCTION_NAME)
    }

    /// The qualified id of `integer::mul`, if the environment declares it.
    pub fn std_integer_mul_qid(&self) -> (r: Option<QualifiedId<FunId>>)
        requires
            self.wf(),
        ensures
            r == self.fun_qid_opt(Self::STD_INTEGER_MODULE_NAME@, Self::INTEGER_MUL_FUNCTION_NAME@),
    {
        self.get_fun_qid_opt(Self::STD_INTEGER_MODULE_NAME, Self::INTEGER_MUL_FUNCTION_NAME)
    }

    /// The qualified id of `integer::div`, if the environment declares it.
    pub fn std_integer_div_qid(&self) -> (r: Option<QualifiedId<FunId>>)
        requires
            self.wf(),
        ensures
            r == self.fun_qid_opt(Self::STD_INTEGER_MODULE_NAME@, Self::INTEGER_DIV_FUNCTION_NAME@),
    {
        self.get_fun_qid_opt(Self::STD_INTEGER_MODULE_NAME, Self::INTEGER_DIV_FUNCTION_NAME)
    }

    /// The qualified id of `integer::mod`, if the environment declares it.
    pub fn std_integer_mod_qid(&self) -> (r: Option<QualifiedId<FunId>>)
        requires
            self.wf(),
        ensures
            r == self.fun_qid_opt(Self::STD_INTEGER_MODULE_NAME@, Self::INTEGER_MOD_FUNCTION_NAME@),
    {
        self.get_fun_qid_opt(Self::STD_INTEGER_MODULE_NAME, Self::INTEGER_MOD_FUNCTION_NAME)
    }

    /// The qualified id of `integer::sqrt`, if the environment declares it.
    pub fn std_integer_sqrt_qid(&self) -> (r: Option<QualifiedId<FunId>>)
        requires
            self.wf(),
        ensures
            r == self.fun_qid_opt(Self::STD_INTEGER_MODULE_NAME@, Self::INTEGER_SQRT_FUNCTION_NAME@),
    {
        self.get_fun_qid_opt(Self::STD_INTEGER_MODULE_NAME, Self::INTEGER_SQRT_FUNCTION_NAME)
    }

    /// The qualified id of `integer::pow`, if the environment declares it.
    pub fn std_integer_pow_qid(&self) -> (r: Option<QualifiedId<FunId>>)
        requires
            self.wf(),
        ensures
            r == self.fun_qid_opt(Self::STD_INTEGER_MODULE_NAME@, Self::INTEGER_POW_FUNCTION_NAME@),
    {
        self.get_fun_qid_opt(Self::STD_INTEGER_MODULE_NAME, Self::INTEGER_POW_FUNCTION_NAME)
    }

    /// The qualified id of `integer::bit_or`, if the environment declares it.
    pub fn std_integer_bit_or_qid(&self) -> (r: Option<QualifiedId<FunId>>)
        requires
            self.wf(),
        ensures
            r == self.fun_qid_opt(Self::STD_INTEGER_MODULE_NAME@, Self::INTEGER_BIT_OR_FUNCTION_NAME@),
    {
        self.get_fun_qid_opt(Self::STD_INTEGER_MODULE_NAME, Self::INTEGER_BIT_OR_FUNCTION_NAME)
    }

    /// The qualified id of `integer::bit_and`, if the environment declares it.
    pub fn std_integer_bit_and_qid(&self) -> (r: Option<QualifiedId<FunId>>)
        requires
            self.wf(),
        ensures
            r == self.fun_qid_opt(Self::STD_INTEGER_MODULE_NAME@, Self::INTEGER_BIT_AND_FUNCTION_NAME@),
    {
        self.get_fun_qid_opt(Self::STD_INTEGER_MODULE_NAME, Self::INTEGER_BIT_AND_FUNCTION_NAME)
    }

    /// The qualified id of `integer::bit_xor`, if the environment declares it.
    pub fn std_integer_bit_xor_qid(&self) -> (r: Option<QualifiedId<FunId>>)
        requires
            self.wf(),
        ensures
            r == self.fun_qid_opt(Self::STD_INTEGER_MODULE_NAME@, Self::INTEGER_BIT_XOR_FUNCTION_NAME@),
    {
        self.get_fun_qid_opt(Self::STD_INTEGER_MODULE_NAME, Self::INTEGER_BIT_XOR_FUNCTION_NAME)
    }

    /// The qualified id of `integer::bit_not`, if the environment declares it.
    pub fn std_integer_bit_not_qid(&self) -> (r: Option<QualifiedId<FunId>>)
        requires
            self.wf(),
        ensures
            r == self.fun_qid_opt(Self::STD_INTEGER_MODULE_NAME@, Self::INTEGER_BIT_NOT_FUNCTION_NAME@),
    {
        self.get_fun_qid_opt(Self::STD_INTEGER_MODULE_NAME, Self::INTEGER_BIT_NOT_FUNCTION_NAME)
    }

    /// The qualified id of `integer::lt`, if the environment declares it.
    pub fn std_integer_lt_qid(&self) -> (r: Option<QualifiedId<FunId>>)
        requires
            self.wf(),
        ensures
            r == self.fun_qid_opt(Self::STD_INTEGER_MODULE_NAME@, Self::INTEGER_LT_FUNCTION_NAME@),
    {
        self.get_fun_qid_opt(Self::STD_INTEGER_MODULE_NAME, Self::INTEGER_LT_FUNCTION_NAME)
    }

    /// The qualified id of `integer::gt`, if the environment declares it.
    pub fn std_integer_gt_qid(&self) -> (r: Option<QualifiedId<FunId>>)
        requires
            self.wf(),
        ensures
            r == self.fun_qid_opt(Self::STD_INTEGER_MODULE_NAME@, Self::INTEGER_GT_FUNCTION_NAME@),
    {
        self.get_fun_qid_opt(Self::STD_INTEGER_MODULE_NAME, Self::INTEGER_GT_FUNCTION_NAME)
    }

    /// The qualified id of `integer::lte`, if the environment declares it.
    pub fn std_integer_lte_qid(&self) -> (r: Option<QualifiedId<FunId>>)
        requires
            self.wf(),
        ensures
            r == self.fun_qid_opt(Self::STD_INTEGER_MODULE_NAME@, Self::INTEGER_LTE_FUNCTION_NAME@),
    {
        self.get_fun_qid_opt(Self::STD_INTEGER_MODULE_NAME, Self::INTEGER_LTE_FUNCTION_NAME)
    }

    /// The qualified id of `integer::gte`, if the environment declares it.
    pub fn std_integer_gte_qid(&self) -> (r: Option<QualifiedId<FunId>>)
        requires
            self.wf(),
        ensures
            r == self.fun_qid_opt(Self::STD_INTEGER_MODULE_NAME@, Self::INTEGER_GTE_FUNCTION_NAME@),
    {
        self.get_fun_qid_opt(Self::STD_INTEGER_MODULE_NAME, Self::INTEGER_GTE_FUNCTION_NAME)
    }

    /// The qualified id of `real::from_integer`, if the environment declares it.
    pub fn std_real_from_integer_qid(&self) -> (r: Option<QualifiedId<FunId>>)
        requires
            self.wf(),
        ensures
            r == self.fun_qid_opt(Self::STD_REAL_MODULE_NAME@, Self::REAL_FROM_INTEGER_FUNCTION_NAME@),
    {
        self.get_fun_qid_opt(Self::STD_REAL_MODULE_NAME, Self::REAL_FROM_INTEGER_FUNCTION_NAME)
    }

    /// The qualified id of `real::to_integer`, if the environment declares it.
    pub fn std_real_to_integer_qid(&self) -> (r: Option<QualifiedId<FunId>>)
        requires
            self.wf(),
        ensures
            r == self.fun_qid_opt(Self::STD_REAL_MODULE_NAME@, Self::REAL_TO_INTEGER_FUNCTION_NAME@),
    {
        self.get_fun_qid_opt(Self::STD_REAL_MODULE_NAME, Self::REAL_TO_INTEGER_FUNCTION_NAME)
    }

    /// The qualified id of `real::add`, if the environment declares it.
    pub fn std_real_add_qid(&self) -> (r: Option<QualifiedId<FunId>>)
        requires
            self.wf(),
        ensures
            r == self.fun_qid_opt(Self::STD_REAL_MODULE_NAME@, Self::REAL_ADD_FUNCTION_NAME@),
    {
        self.get_fun_qid_opt(Self::STD_REAL_MODULE_NAME, Self::REAL_ADD_FUNCTION_NAME)
    }

    /// The qualified id of `real::sub`, if the environment declares it.
    pub fn std_real_sub_qid(&self) -> (r: Option<QualifiedId<FunId>>)
        requires
            self.wf(),
        ensures
            r == self.fun_qid_opt(Self::STD_REAL_MODULE_NAME@, Self::REAL_SUB_FUNCTION_NAME@),
    {
        self.get_fun_qid_opt(Self::STD_REAL_MODULE_NAME, Self::REAL_SUB_FUNCTION_NAME)
    }

    /// The qualified id of `real::neg`, if the environment declares it.
    pub fn std_real_neg_qid(&self) -> (r: Option<QualifiedId<FunId>>)
        requires
            self.wf(),
        ensures
            r == self.fun_qid_opt(Self::STD_REAL_MODULE_NAME@, Self::REAL_NEG_FUNCTION_NAME@),
    {
        self.get_fun_qid_opt(Self::STD_REAL_MODULE_NAME, Self::REAL_NEG_FUNCTION_NAME)
    }

    /// The qualified id of `real::mul`, if the environment declares it.
    pub fn std_real_mul_qid(&self) -> (r: Option<QualifiedId<FunId>>)
        requires
            self.wf(),
        ensures
            r == self.fun_qid_opt(Self::STD_REAL_MODULE_NAME@, Self::REAL_MUL_FUNCTION_NAME@),
    {
        self.get_fun_qid_opt(Self::STD_REAL_MODULE_NAME, Self::REAL_MUL_FUNCTION_NAME)
    }

    /// The qualified id of `real::div`, if the environment declares it.
    pub fn std_real_div_qid(&self) -> (r: Option<QualifiedId<FunId>>)
        requires
            self.wf(),
        ensures
            r == self.fun_qid_opt(Self::STD_REAL_MODULE_NAME@, Self::REAL_DIV_FUNCTION_NAME@),
    {
        self.get_fun_qid_opt(Self::STD_REAL_MODULE_NAME, Self::REAL_DIV_FUNCTION_NAME)
    }

    /// The qualified id of `real::sqrt`, if the environment declares it.
    pub fn std_real_sqrt_qid(&self) -> (r: Option<QualifiedId<FunId>>)
        requires
            self.wf(),
        ensures
            r == self.fun_qid_opt(Self::STD_REAL_MODULE_NAME@, Self::REAL_SQRT_FUNCTION_NAME@),
    {
        self.get_fun_qid_opt(Self::STD_REAL_MODULE_NAME, Self::REAL_SQRT_FUNCTION_NAME)
    }

    /// The qualified id of `real::exp`, if the environment declares it.
    pub fn std_real_exp_qid(&self) -> (r: Option<QualifiedId<FunId>>)
        requires
            self.wf(),
        ensures
            r == self.fun_qid_opt(Self::STD_REAL_MODULE_NAME@, Self::REAL_EXP_FUNCTION_NAME@),
    {
        self.get_fun_qid_opt(Self::STD_REAL_MODULE_NAME, Self::REAL_EXP_FUNCTION_NAME)
    }

    /// The qualified id of `real::lt`, if the environment declares it.
    pub fn std_real_lt_qid(&self) -> (r: Option<QualifiedId<FunId>>)
        requires
            self.wf(),
        ensures
            r == self.fun_qid_opt(Self::STD_REAL_MODULE_NAME@, Self::REAL_LT_FUNCTION_NAME@),
    {
        self.get_fun_qid_opt(Self::STD_REAL_MODULE_NAME, Self::REAL_LT_FUNCTION_NAME)
    }

    /// The qualified id of `real::gt`, if the environment declares it.
    pub fn std_real_gt_qid(&self) -> (r: Option<QualifiedId<FunId>>)
        requires
            self.wf(),
        ensures
            r == self.fun_qid_opt(Self::STD_REAL_MODULE_NAME@, Self::REAL_GT_FUNCTION_NAME@),
    {
        self.get_fun_qid_opt(Self::STD_REAL_MODULE_NAME, Self::REAL_GT_FUNCTION_NAME)
    }

    /// The qualified id of `real::lte`, if the environment declares it.
    pub fn std_real_lte_qid(&self) -> (r: Option<QualifiedId<FunId>>)
        requires
            self.wf(),
        ensures
            r == self.fun_qid_opt(Self::STD_REAL_MODULE_NAME@, Self::REAL_LTE_FUNCTION_NAME@),
    {
        self.get_fun_qid_opt(Self::STD_REAL_MODULE_NAME, Self::REAL_LTE_FUNCTION_NAME)
    }

    /// The qualified id of `real::gte`, if the environment declares it.
    pub fn std_real_gte_qid(&self) -> (r: Option<QualifiedId<FunId>>)
        requires
            self.wf(),
        ensures
            r == self.fun_qid_opt(Self::STD_REAL_MODULE_NAME@, Self::REAL_GTE_FUNCTION_NAME@),
    {
        self.get_fun_qid_opt(Self::STD_REAL_MODULE_NAME, Self::REAL_GTE_FUNCTION_NAME)
    }

    /// The qualified id of `address::to_u256`, if the environment declares it.
    pub fn sui_address_to_u256_qid(&self) -> (r: Option<QualifiedId<FunId>>)
        requires
            self.wf(),
        ensures
            r == self.fun_qid_opt(Self::SUI_ADDRESS_MODULE_NAME@, Self::ADDRESS_TO_U256_FUNCTION_NAME@),
    {
        self.get_fun_qid_opt(Self::SUI_ADDRESS_MODULE_NAME, Self::ADDRESS_TO_U256_FUNCTION_NAME)
    }

    /// The qualified id of `address::from_u256`, if the environment declares it.
    pub fn sui_address_from_u256_qid(&self) -> (r: Option<QualifiedId<FunId>>)
        requires
            self.wf(),
        ensures
            r == self.fun_qid_opt(Self::SUI_ADDRESS_MODULE_NAME@, Self::ADDRESS_FROM_U256_FUNCTION_NAME@),
    {
        self.get_fun_qid_opt(Self::SUI_ADDRESS_MODULE_NAME, Self::ADDRESS_FROM_U256_FUNCTION_NAME)
    }

    /// The qualified id of `address::from_bytes`, if the environment declares it.
    pub fn sui_address_from_bytes_qid(&self) -> (r: Option<QualifiedId<FunId>>)
        requires
            self.wf(),
        ensures
            r == self.fun_qid_opt(Self::SUI_ADDRESS_MODULE_NAME@, Self::ADDRESS_FROM_BYTES_FUNCTION_NAME@),
    {
        self.get_fun_qid_opt(Self::SUI_ADDRESS_MODULE_NAME, Self::ADDRESS_FROM_BYTES_FUNCTION_NAME)
    }

    /// The qualified id of `types::is_one_time_witness`, if the environment declares it.
    pub fn sui_types_is_one_time_witness_qid(&self) -> (r: Option<QualifiedId<FunId>>)
        requires
            self.wf(),
        ensures
            r == self.fun_qid_opt(Self::SUI_TYPES_MODULE_NAME@, Self::TYPES_WITNESS_INSPECTOR_FUNCTION_NAME@),
    {
        self.get_fun_qid_opt(Self::SUI_TYPES_MODULE_NAME, Self::TYPES_WITNESS_INSPECTOR_FUNCTION_NAME)
    }

    /// The qualified id of `object::delete_impl`, if the environment declares it.
    pub fn sui_object_delete_impl_qid(&self) -> (r: Option<QualifiedId<FunId>>)
        requires
            self.wf(),
        ensures
            r == self.fun_qid_opt(Self::OBJECT_MODULE_NAME@, Self::OBJECT_DELETE_FUNCTION_NAME@),
    {
        self.get_fun_qid_opt(Self::OBJECT_MODULE_NAME, Self::OBJECT_DELETE_FUNCTION_NAME)
    }

    /// The qualified id of `object::record_new_uid`, if the environment declares it.
    pub fn sui_object_record_new_uid_qid(&self) -> (r: Option<QualifiedId<FunId>>)
        requires
            self.wf(),
        ensures
            r == self.fun_qid_opt(Self::OBJECT_MODULE_NAME@, Self::OBJECT_RECORD_NEW_UID_FUNCTION_NAME@),
    {
        self.get_fun_qid_opt(Self::OBJECT_MODULE_NAME, Self::OBJECT_RECORD_NEW_UID_FUNCTION_NAME)
    }

    /// The qualified id of `dynamic_field::hash_type_and_key`, if the environment declares it.
    pub fn sui_dynamic_field_hash_type_and_key_qid(&self) -> (r: Option<QualifiedId<FunId>>)
        requires
            self.wf(),
        ensures
            r == self.fun_qid_opt(Self::DYNAMIC_FIELD_MODULE_NAME@, Self::DYNAMIC_FIELD_HASH_TYPE_AND_KEY_FUNCTION_NAME@),
    {
        self.get_fun_qid_opt(Self::DYNAMIC_FIELD_MODULE_NAME, Self::DYNAMIC_FIELD_HASH_TYPE_AND_KEY_FUNCTION_NAME)
    }

    /// The qualified id of `dynamic_field::add_child_object`, if the environment declares it.
    pub fn sui_dynamic_field_add_child_object_qid(&self) -> (r: Option<QualifiedId<FunId>>)
        requires
            self.wf(),
        ensures
            r == self.fun_qid_opt(Self::DYNAMIC_FIELD_MODULE_NAME@, Self::DYNAMIC_FIELD_ADD_CHILD_OBJECT_FUNCTION_NAME@),
    {
        self.get_fun_qid_opt(Self::DYNAMIC_FIELD_MODULE_NAME, Self::DYNAMIC_FIELD_ADD_CHILD_OBJECT_FUNCTION_NAME)
    }

    /// The qualified id of `dynamic_field::borrow_child_object`, if the environment declares it.
    pub fn sui_dynamic_field_borrow_child_object_qid(&self) -> (r: Option<QualifiedId<FunId>>)
        requires
            self.wf(),
        ensures
            r == self.fun_qid_opt(Self::DYNAMIC_FIELD_MODULE_NAME@, Self::DYNAMIC_FIELD_BORROW_CHILD_OBJECT_FUNCTION_NAME@),
    {
        self.get_fun_qid_opt(Self::DYNAMIC_FIELD_MODULE_NAME, Self::DYNAMIC_FIELD_BORROW_CHILD_OBJECT_FUNCTION_NAME)
    }

    /// The qualified id of `dynamic_field::borrow_child_object_mut`, if the environment declares it.
    pub fn sui_dynamic_field_borrow_child_object_mut_qid(&self) -> (r: Option<QualifiedId<FunId>>)
        requires
            self.wf(),
        ensures
            r == self.fun_qid_opt(Self::DYNAMIC_FIELD_MODULE_NAME@, Self::DYNAMIC_FIELD_BORROW_CHILD_OBJECT_MUT_FUNCTION_NAME@),
    {
        self.get_fun_qid_opt(Self::DYNAMIC_FIELD_MODULE_NAME, Self::DYNAMIC_FIELD_BORROW_CHILD_OBJECT_MUT_FUNCTION_NAME)
    }

    /// The qualified id of `dynamic_field::remove_child_object`, if the environment declares it.
    pub fn sui_dynamic_field_remove_child_object_qid(&self) -> (r: Option<QualifiedId<FunId>>)
        requires
            self.wf(),
        ensures
            r == self.fun_qid_opt(Self::DYNAMIC_FIELD_MODULE_NAME@, Self::DYNAMIC_FIELD_REMOVE_CHILD_OBJECT_FUNCTION_NAME@),
    {
        self.get_fun_qid_opt(Self::DYNAMIC_FIELD_MODULE_NAME, Self::DYNAMIC_FIELD_REMOVE_CHILD_OBJECT_FUNCTION_NAME)
    }

    /// The qualified id of `dynamic_field::has_child_object`, if the environment declares it.
    pub fn sui_dynamic_field_has_child_object_qid(&self) -> (r: Option<QualifiedId<FunId>>)
        requires
            self.wf(),
        ensures
            r == self.fun_qid_opt(Self::DYNAMIC_FIELD_MODULE_NAME@, Self::DYNAMIC_FIELD_HAS_CHILD_OBJECT_FUNCTION_NAME@),
    {
        self.get_fun_qid_opt(Self::DYNAMIC_FIELD_MODULE_NAME, Self::DYNAMIC_FIELD_HAS_CHILD_OBJECT_FUNCTION_NAME)
    }

    /// The qualified id of `dynamic_field::has_child_object_with_ty`, if the environment declares it.
    pub fn sui_dynamic_field_has_child_object_with_ty_qid(&self) -> (r: Option<QualifiedId<FunId>>)
        requires
            self.wf(),
        ensures
            r == self.fun_qid_opt(Self::DYNAMIC_FIELD_MODULE_NAME@, Self::DYNAMIC_FIELD_HAS_CHILD_OBJECT_WITH_TYPE_FUNCTION_NAME@),
    {
        self.get_fun_qid_opt(Self::DYNAMIC_FIELD_MODULE_NAME, Self::DYNAMIC_FIELD_HAS_CHILD_OBJECT_WITH_TYPE_FUNCTION_NAME)
    }

    /// The qualified id of `hash::blake2b256`, if the environment declares it.
    pub fn sui_crypto_hash_blake2b256_qid(&self) -> (r: Option<QualifiedId<FunId>>)
        requires
            self.wf(),
        ensures
            r == self.fun_qid_opt(Self::SUI_HASH_MODULE_NAME@, Self::CRYPTO_HASH_BLAKE_2B_FUNCTION_NAME@),
    {
        self.get_fun_qid_opt(Self::SUI_HASH_MODULE_NAME, Self::CRYPTO_HASH_BLAKE_2B_FUNCTION_NAME)
    }

    /// The qualified id of `hash::keccak256`, if the environment declares it.
    pub fn sui_crypto_hash_keccak256_qid(&self) -> (r: Option<QualifiedId<FunId>>)
        requires
            self.wf(),
        ensures
            r == self.fun_qid_opt(Self::SUI_HASH_MODULE_NAME@, Self::CRYPTO_HASH_KECCAK_FUNCTION_NAME@),
    {
        self.get_fun_qid_opt(Self::SUI_HASH_MODULE_NAME, Self::CRYPTO_HASH_KECCAK_FUNCTION_NAME)
    }

    /// The qualified id of `hmac::hmac_sha3_256`, if the environment declares it.
    pub fn sui_crypto_hmac_hmac_sha3_256_qid(&self) -> (r: Option<QualifiedId<FunId>>)
        requires
            self.wf(),
        ensures
            r == self.fun_qid_opt(Self::SUI_HMAC_MODULE_NAME@, Self::CRYPTO_HMAC_SHA3_FUNCTION_NAME@),
    {
        self.get_fun_qid_opt(Self::SUI_HMAC_MODULE_NAME, Self::CRYPTO_HMAC_SHA3_FUNCTION_NAME)
    }

    /// The qualified id of `ed25519::ed25519_verify`, if the environment declares it.
    pub fn sui_crypto_ed25519_ed25519_verify_qid(&self) -> (r: Option<QualifiedId<FunId>>)
        requires
            self.wf(),
        ensures
            r == self.fun_qid_opt(Self::SUI_ED25519_MODULE_NAME@, Self::CRYPTO_ED25519_VERIFIER_FUNCTION_NAME@),
    {
        self.get_fun_qid_opt(Self::SUI_ED25519_MODULE_NAME, Self::CRYPTO_ED25519_VERIFIER_FUNCTION_NAME)
    }

    /// The qualified id of `ecvrf::ecvrf_verify`, if the environment declares it.
    pub fn sui_crypto_ecvrf_ecvrf_verify_qid(&self) -> (r: Option<QualifiedId<FunId>>)
        requires
            self.wf(),
        ensures
            r == self.fun_qid_opt(Self::SUI_ECVRF_MODULE_NAME@, Self::CRYPTO_ECVRF_VERIFIER_FUNCTION_NAME@),
    {
        self.get_fun_qid_opt(Self::SUI_ECVRF_MODULE_NAME, Self::CRYPTO_ECVRF_VERIFIER_FUNCTION_NAME)
    }

    /// The qualified id of `ecdsa_r1::secp256r1_ecrecover`, if the environment declares it.
    pub fn sui_crypto_ecdsa_r1_secp256r1_ecrecover_qid(&self) -> (r: Option<QualifiedId<FunId>>)
        requires
            self.wf(),
        ensures
            r == self.fun_qid_opt(Self::SUI_ECDSA_R1_MODULE_NAME@, Self::CRYPTO_ECDSA_R1_KEY_RECOVERER_FUNCTION_NAME@),
    {
        self.get_fun_qid_opt(Self::SUI_ECDSA_R1_MODULE_NAME, Self::CRYPTO_ECDSA_R1_KEY_RECOVERER_FUNCTION_NAME)
    }

    /// The qualified id of `ecdsa_r1::secp256r1_verify`, if the environment declares it.
    pub fn sui_crypto_ecdsa_r1_secp256r1_verify_qid(&self) -> (r: Option<QualifiedId<FunId>>)
        requires
            self.wf(),
        ensures
            r == self.fun_qid_opt(Self::SUI_ECDSA_R1_MODULE_NAME@, Self::CRYPTO_ECDSA_R1_SIG_VALIDATOR_FUNCTION_NAME@),
    {
        self.get_fun_qid_opt(Self::SUI_ECDSA_R1_MODULE_NAME, Self::CRYPTO_ECDSA_R1_SIG_VALIDATOR_FUNCTION_NAME)
    }

    /// The qualified id of `ecdsa_k1::secp256k1_ecrecover`, if the environment declares it.
    pub fn sui_crypto_ecdsa_k1_secp256k1_ecrecover_qid(&self) -> (r: Option<QualifiedId<FunId>>)
        requires
            self.wf(),
        ensures
            r == self.fun_qid_opt(Self::SUI_ECDSA_K1_MODULE_NAME@, Self::CRYPTO_ECDSA_K1_EC_RECOVER_FUNCTION_NAME@),
    {
        self.get_fun_qid_opt(Self::SUI_ECDSA_K1_MODULE_NAME, Self::CRYPTO_ECDSA_K1_EC_RECOVER_FUNCTION_NAME)
    }

    /// The qualified id of `ecdsa_k1::decompress_pubkey`, if the environment declares it.
    pub fn sui_crypto_ecdsa_k1_decompress_pubkey_qid(&self) -> (r: Option<QualifiedId<FunId>>)
        requires
            self.wf(),
        ensures
            r == self.fun_qid_opt(Self::SUI_ECDSA_K1_MODULE_NAME@, Self::CRYPTO_ECDSA_K1_DECOMPRESS_PUBKEY_FUNCTION_NAME@),
    {
        self.get_fun_qid_opt(Self::SUI_ECDSA_K1_MODULE_NAME, Self::CRYPTO_ECDSA_K1_DECOMPRESS_PUBKEY_FUNCTION_NAME)
    }

    /// The qualified id of `ecdsa_k1::secp256k1_verify`, if the environment declares it.
    pub fn sui_crypto_ecdsa_k1_secp256k1_verify_qid(&self) -> (r: Option<QualifiedId<FunId>>)
        requires
            self.wf(),
        ensures
            r == self.fun_qid_opt(Self::SUI_ECDSA_K1_MODULE_NAME@, Self::CRYPTO_ECDSA_K1_VERIFY_FUNCTION_NAME@),
    {
        self.get_fun_qid_opt(Self::SUI_ECDSA_K1_MODULE_NAME, Self::CRYPTO_ECDSA_K1_VERIFY_FUNCTION_NAME)
    }

    /// The qualified id of `ecdsa_k1::secp256k1_sign`, if the environment declares it.
    pub fn sui_crypto_ecdsa_k1_secp256k1_sign_qid(&self) -> (r: Option<QualifiedId<FunId>>)
        requires
            self.wf(),
        ensures
            r == self.fun_qid_opt(Self::SUI_ECDSA_K1_MODULE_NAME@, Self::CRYPTO_ECDSA_K1_SIGN_FUNCTION_NAME@),
    {
        self.get_fun_qid_opt(Self::SUI_ECDSA_K1_MODULE_NAME, Self::CRYPTO_ECDSA_K1_SIGN_FUNCTION_NAME)
    }

    /// The qualified id of `ecdsa_k1::secp256k1_keypair_from_seed`, if the environment declares it.
    pub fn sui_crypto_ecdsa_k1_secp256k1_keypair_from_seed_qid(&self) -> (r: Option<QualifiedId<FunId>>)
        requires
            self.wf(),
        ensures
            r == self.fun_qid_opt(Self::SUI_ECDSA_K1_MODULE_NAME@, Self::CRYPTO_ECDSA_K1_KEYPAIR_FROM_SEED_FUNCTION_NAME@),
    {
        self.get_fun_qid_opt(Self::SUI_ECDSA_K1_MODULE_NAME, Self::CRYPTO_ECDSA_K1_KEYPAIR_FROM_SEED_FUNCTION_NAME)
    }

    /// The qualified id of `bls12381::bls12381_min_sig_verify`, if the environment declares it.
    pub fn sui_crypto_bls12381_bls12381_min_sig_verify_qid(&self) -> (r: Option<QualifiedId<FunId>>)
        requires
            self.wf(),
        ensures
            r == self.fun_qid_opt(Self::SUI_BLS12381_MODULE_NAME@, Self::CRYPTO_BLS_MIN_SIG_VERIFY_FUNCTION_NAME@),
    {
        self.get_fun_qid_opt(Self::SUI_BLS12381_MODULE_NAME, Self::CRYPTO_BLS_MIN_SIG_VERIFY_FUNCTION_NAME)
    }

    /// The qualified id of `bls12381::bls12381_min_pk_verify`, if the environment declares it.
    pub fn sui_crypto_bls12381_bls12381_min_pk_verify_qid(&self) -> (r: Option<QualifiedId<FunId>>)
        requires
            self.wf(),
        ensures
            r == self.fun_qid_opt(Self::SUI_BLS12381_MODULE_NAME@, Self::CRYPTO_BLS_MIN_PK_VERIFY_FUNCTION_NAME@),
    {
        self.get_fun_qid_opt(Self::SUI_BLS12381_MODULE_NAME, Self::CRYPTO_BLS_MIN_PK_VERIFY_FUNCTION_NAME)
    }

    /// The qualified id of `group_ops::internal_validate`, if the environment declares it.
    pub fn sui_crypto_group_ops_internal_validate_qid(&self) -> (r: Option<QualifiedId<FunId>>)
        requires
            self.wf(),
        ensures
            r == self.fun_qid_opt(Self::SUI_GROUP_OPS_MODULE_NAME@, Self::CRYPTO_GROUP_OPS_VALIDATE_FUNCTION_NAME@),
    {
        self.get_fun_qid_opt(Self::SUI_GROUP_OPS_MODULE_NAME, Self::CRYPTO_GROUP_OPS_VALIDATE_FUNCTION_NAME)
    }

    /// The qualified id of `group_ops::internal_add`, if the environment declares it.
    pub fn sui_crypto_group_ops_internal_add_qid(&self) -> (r: Option<QualifiedId<FunId>>)
        requires
            self.wf(),
        ensures
            r == self.fun_qid_opt(Self::SUI_GROUP_OPS_MODULE_NAME@, Self::CRYPTO_GROUP_OPS_ADD_FUNCTION_NAME@),
    {
        self.get_fun_qid_opt(Self::SUI_GROUP_OPS_MODULE_NAME, Self::CRYPTO_GROUP_OPS_ADD_FUNCTION_NAME)
    }

    /// The qualified id of `group_ops::internal_sub`, if the environment declares it.
    pub fn sui_crypto_group_ops_internal_sub_qid(&self) -> (r: Option<QualifiedId<FunId>>)
        requires
            self.wf(),
        ensures
            r == self.fun_qid_opt(Self::SUI_GROUP_OPS_MODULE_NAME@, Self::CRYPTO_GROUP_OPS_SUB_FUNCTION_NAME@),
    {
        self.get_fun_qid_opt(Self::SUI_GROUP_OPS_MODULE_NAME, Self::CRYPTO_GROUP_OPS_SUB_FUNCTION_NAME)
    }

    /// The qualified id of `group_ops::internal_mul`, if the environment declares it.
    pub fn sui_crypto_group_ops_internal_mul_qid(&self) -> (r: Option<QualifiedId<FunId>>)
        requires
            self.wf(),
        ensures
            r == self.fun_qid_opt(Self::SUI_GROUP_OPS_MODULE_NAME@, Self::CRYPTO_GROUP_OPS_MUL_FUNCTION_NAME@),
    {
        self.get_fun_qid_opt(Self::SUI_GROUP_OPS_MODULE_NAME, Self::CRYPTO_GROUP_OPS_MUL_FUNCTION_NAME)
    }

    /// The qualified id of `group_ops::internal_div`, if the environment declares it.
    pub fn sui_crypto_group_ops_internal_div_qid(&self) -> (r: Option<QualifiedId<FunId>>)
        requires
            self.wf(),
        ensures
            r == self.fun_qid_opt(Self::SUI_GROUP_OPS_MODULE_NAME@, Self::CRYPTO_GROUP_OPS_DIV_FUNCTION_NAME@),
    {
        self.get_fun_qid_opt(Self::SUI_GROUP_OPS_MODULE_NAME, Self::CRYPTO_GROUP_OPS_DIV_FUNCTION_NAME)
    }

    /// The qualified id of `group_ops::internal_hash_to`, if the environment declares it.
    pub fn sui_crypto_group_ops_internal_hash_to_qid(&self) -> (r: Option<QualifiedId<FunId>>)
        requires
            self.wf(),
        ensures
            r == self.fun_qid_opt(Self::SUI_GROUP_OPS_MODULE_NAME@, Self::CRYPTO_GROUP_OPS_HASH_TO_FUNCTION_NAME@),
    {
        self.get_fun_qid_opt(Self::SUI_GROUP_OPS_MODULE_NAME, Self::CRYPTO_GROUP_OPS_HASH_TO_FUNCTION_NAME)
    }

    /// The qualified id of `group_ops::internal_multi_scalar_mul`, if the environment declares it.
    pub fn sui_crypto_group_ops_internal_multi_scalar_mul_qid(&self) -> (r: Option<QualifiedId<FunId>>)
        requires
            self.wf(),
        ensures
            r == self.fun_qid_opt(Self::SUI_GROUP_OPS_MODULE_NAME@, Self::CRYPTO_GROUP_OPS_MULTI_SCALAR_MUL_FUNCTION_NAME@),
    {
        self.get_fun_qid_opt(Self::SUI_GROUP_OPS_MODULE_NAME, Self::CRYPTO_GROUP_OPS_MULTI_SCALAR_MUL_FUNCTION_NAME)
    }

    /// The qualified id of `group_ops::internal_pairing`, if the environment declares it.
    pub fn sui_crypto_group_ops_internal_pairing_qid(&self) -> (r: Option<QualifiedId<FunId>>)
        requires
            self.wf(),
        ensures
            r == self.fun_qid_opt(Self::SUI_GROUP_OPS_MODULE_NAME@, Self::CRYPTO_GROUP_OPS_PAIRING_FUNCTION_NAME@),
    {
        self.get_fun_qid_opt(Self::SUI_GROUP_OPS_MODULE_NAME, Self::CRYPTO_GROUP_OPS_PAIRING_FUNCTION_NAME)
    }

    /// The qualified id of `group_ops::internal_convert`, if the environment declares it.
    pub fn sui_crypto_group_ops_internal_convert_qid(&self) -> (r: Option<QualifiedId<FunId>>)
        requires
            self.wf(),
        ensures
            r == self.fun_qid_opt(Self::SUI_GROUP_OPS_MODULE_NAME@, Self::CRYPTO_GROUP_OPS_CONVERT_FUNCTION_NAME@),
    {
        self.get_fun_qid_opt(Self::SUI_GROUP_OPS_MODULE_NAME, Self::CRYPTO_GROUP_OPS_CONVERT_FUNCTION_NAME)
    }

    /// The qualified id of `group_ops::internal_sum`, if the environment declares it.
    pub fn sui_crypto_group_ops_internal_sum_qid(&self) -> (r: Option<QualifiedId<FunId>>)
        requires
            self.wf(),
        ensures
            r == self.fun_qid_opt(Self::SUI_GROUP_OPS_MODULE_NAME@, Self::CRYPTO_GROUP_OPS_SUM_FUNCTION_NAME@),
    {
        self.get_fun_qid_opt(Self::SUI_GROUP_OPS_MODULE_NAME, Self::CRYPTO_GROUP_OPS_SUM_FUNCTION_NAME)
    }

    /// The qualified id of `groth16::prepare_verifying_key_internal`, if the environment declares it.
    pub fn sui_crypto_groth16_prepare_verifying_key_internal_qid(&self) -> (r: Option<QualifiedId<FunId>>)
        requires
            self.wf(),
        ensures
            r == self.fun_qid_opt(Self::SUI_GROTH16_MODULE_NAME@, Self::CRYPTO_GROTH16_PREPARE_VERIFYING_KEY_FUNCTION_NAME@),
    {
        self.get_fun_qid_opt(Self::SUI_GROTH16_MODULE_NAME, Self::CRYPTO_GROTH16_PREPARE_VERIFYING_KEY_FUNCTION_NAME)
    }

    /// The qualified id of `groth16::verify_groth16_proof_internal`, if the environment declares it.
    pub fn sui_crypto_groth16_verify_groth16_proof_internal_qid(&self) -> (r: Option<QualifiedId<FunId>>)
        requires
            self.wf(),
        ensures
            r == self.fun_qid_opt(Self::SUI_GROTH16_MODULE_NAME@, Self::CRYPTO_GROTH16_VERIFY_PROOF_FUNCTION_NAME@),
    {
        self.get_fun_qid_opt(Self::SUI_GROTH16_MODULE_NAME, Self::CRYPTO_GROTH16_VERIFY_PROOF_FUNCTION_NAME)
    }

    /// The qualified id of `poseidon::poseidon_bn254_internal`, if the environment declares it.
    pub fn sui_crypto_poseidon_poseidon_bn254_internal_qid(&self) -> (r: Option<QualifiedId<FunId>>)
        requires
            self.wf(),
        ensures
            r == self.fun_qid_opt(Self::SUI_POSEIDON_MODULE_NAME@, Self::CRYPTO_POSEIDON_BN254_FUNCTION_NAME@),
    {
        self.get_fun_qid_opt(Self::SUI_POSEIDON_MODULE_NAME, Self::CRYPTO_POSEIDON_BN254_FUNCTION_NAME)
    }

    /// The qualified id of `vdf::hash_to_input_internal`, if the environment declares it.
    pub fn sui_crypto_vdf_hash_to_input_internal_qid(&self) -> (r: Option<QualifiedId<FunId>>)
        requires
            self.wf(),
        ensures
            r == self.fun_qid_opt(Self::SUI_VDF_MODULE_NAME@, Self::CRYPTO_VDF_INPUT_HASHER_FUNCTION_NAME@),
    {
        self.get_fun_qid_opt(Self::SUI_VDF_MODULE_NAME, Self::CRYPTO_VDF_INPUT_HASHER_FUNCTION_NAME)
    }

    /// The qualified id of `vdf::vdf_verify_internal`, if the environment declares it.
    pub fn sui_crypto_vdf_vdf_verify_internal_qid(&self) -> (r: Option<QualifiedId<FunId>>)
        requires
            self.wf(),
        ensures
            r == self.fun_qid_opt(Self::SUI_VDF_MODULE_NAME@, Self::CRYPTO_VDF_PROOF_VERIFIER_FUNCTION_NAME@),
    {
        self.get_fun_qid_opt(Self::SUI_VDF_MODULE_NAME, Self::CRYPTO_VDF_PROOF_VERIFIER_FUNCTION_NAME)
    }

    /// The qualified id of `nitro_attestation::load_nitro_attestation_internal`, if the environment declares it.
    pub fn sui_crypto_nitro_attestation_load_nitro_attestation_internal_qid(&self) -> (r: Option<QualifiedId<FunId>>)
        requires
            self.wf(),
        ensures
            r == self.fun_qid_opt(Self::SUI_NITRO_ATTESTATION_MODULE_NAME@, Self::CRYPTO_NITRO_ATTESTATION_LOADER_FUNCTION_NAME@),
    {
        self.get_fun_qid_opt(Self::SUI_NITRO_ATTESTATION_MODULE_NAME, Self::CRYPTO_NITRO_ATTESTATION_LOADER_FUNCTION_NAME)
    }

    /// The qualified id of `accumulator::emit_deposit_event`, if the environment declares it.
    pub fn sui_accumulator_emit_deposit_event_qid(&self) -> (r: Option<QualifiedId<FunId>>)
        requires
            self.wf(),
        ensures
            r == self.fun_qid_opt(Self::SUI_ACCUMULATOR_MODULE_NAME@, Self::ACCUMULATOR_EMIT_DEPOSIT_EVENT_FUNCTION_NAME@),
    {
        self.get_fun_qid_opt(Self::SUI_ACCUMULATOR_MODULE_NAME, Self::ACCUMULATOR_EMIT_DEPOSIT_EVENT_FUNCTION_NAME)
    }

    /// The qualified id of `accumulator::emit_withdraw_event`, if the environment declares it.
    pub fn sui_accumulator_emit_withdraw_event_qid(&self) -> (r: Option<QualifiedId<FunId>>)
        requires
            self.wf(),
        ensures
            r == self.fun_qid_opt(Self::SUI_ACCUMULATOR_MODULE_NAME@, Self::ACCUMULATOR_EMIT_WITHDRAW_EVENT_FUNCTION_NAME@),
    {
        self.get_fun_qid_opt(Self::SUI_ACCUMULATOR_MODULE_NAME, Self::ACCUMULATOR_EMIT_WITHDRAW_EVENT_FUNCTION_NAME)
    }

    /// The qualified id of `event::emit`, if the environment declares it.
    pub fn sui_event_emit_qid(&self) -> (r: Option<QualifiedId<FunId>>)
        requires
            self.wf(),
        ensures
            r == self.fun_qid_opt(Self::SUI_EVENT_MODULE_NAME@, Self::EVENT_EMIT_FUNCTION_NAME@),
    {
        self.get_fun_qid_opt(Self::SUI_EVENT_MODULE_NAME, Self::EVENT_EMIT_FUNCTION_NAME)
    }

    /// The qualified id of `tx_context::native_sender`, if the environment declares it.
    pub fn sui_tx_context_sender_qid(&self) -> (r: Option<QualifiedId<FunId>>)
        requires
            self.wf(),
        ensures
            r == self.fun_qid_opt(Self::SUI_TX_CONTEXT_MODULE_NAME@, Self::TX_CONTEXT_SENDER_FUNCTION_NAME@),
    {
        self.get_fun_qid_opt(Self::SUI_TX_CONTEXT_MODULE_NAME, Self::TX_CONTEXT_SENDER_FUNCTION_NAME)
    }

    /// The qualified id of `tx_context::native_epoch`, if the environment declares it.
    pub fn sui_tx_context_epoch_qid(&self) -> (r: Option<QualifiedId<FunId>>)
        requires
            self.wf(),
        ensures
            r == self.fun_qid_opt(Self::SUI_TX_CONTEXT_MODULE_NAME@, Self::TX_CONTEXT_EPOCH_FUNCTION_NAME@),
    {
        self.get_fun_qid_opt(Self::SUI_TX_CONTEXT_MODULE_NAME, Self::TX_CONTEXT_EPOCH_FUNCTION_NAME)
    }

    /// The qualified id of `tx_context::native_epoch_timestamp_ms`, if the environment declares it.
    pub fn sui_tx_context_epoch_timestamp_ms_qid(&self) -> (r: Option<QualifiedId<FunId>>)
        requires
            self.wf(),
        ensures
            r == self.fun_qid_opt(Self::SUI_TX_CONTEXT_MODULE_NAME@, Self::TX_CONTEXT_EPOCH_TIMESTAMP_MS_FUNCTION_NAME@),
    {
        self.get_fun_qid_opt(Self::SUI_TX_CONTEXT_MODULE_NAME, Self::TX_CONTEXT_EPOCH_TIMESTAMP_MS_FUNCTION_NAME)
    }

    /// The qualified id of `tx_context::fresh_id`, if the environment declares it.
    pub fn sui_tx_context_fresh_id_qid(&self) -> (r: Option<QualifiedId<FunId>>)
        requires
            self.wf(),
        ensures
            r == self.fun_qid_opt(Self::SUI_TX_CONTEXT_MODULE_NAME@, Self::TX_CONTEXT_FRESH_ID_FUNCTION_NAME@),
    {
        self.get_fun_qid_opt(Self::SUI_TX_CONTEXT_MODULE_NAME, Self::TX_CONTEXT_FRESH_ID_FUNCTION_NAME)
    }

    /// The qualified id of `tx_context::native_rgp`, if the environment declares it.
    pub fn sui_tx_context_reference_gas_price_qid(&self) -> (r: Option<QualifiedId<FunId>>)
        requires
            self.wf(),
        ensures
            r == self.fun_qid_opt(Self::SUI_TX_CONTEXT_MODULE_NAME@, Self::TX_CONTEXT_REFERENCE_GAS_PRICE_FUNCTION_NAME@),
    {
        self.get_fun_qid_opt(Self::SUI_TX_CONTEXT_MODULE_NAME, Self::TX_CONTEXT_REFERENCE_GAS_PRICE_FUNCTION_NAME)
    }

    /// The qualified id of `tx_context::native_gas_price`, if the environment declares it.
    pub fn sui_tx_context_gas_price_qid(&self) -> (r: Option<QualifiedId<FunId>>)
        requires
            self.wf(),
        ensures
            r == self.fun_qid_opt(Self::SUI_TX_CONTEXT_MODULE_NAME@, Self::TX_CONTEXT_GAS_PRICE_FUNCTION_NAME@),
    {
        self.get_fun_qid_opt(Self::SUI_TX_CONTEXT_MODULE_NAME, Self::TX_CONTEXT_GAS_PRICE_FUNCTION_NAME)
    }

    /// The qualified id of `tx_context::native_ids_created`, if the environment declares it.
    pub fn sui_tx_context_ids_created_qid(&self) -> (r: Option<QualifiedId<FunId>>)
        requires
            self.wf(),
        ensures
            r == self.fun_qid_opt(Self::SUI_TX_CONTEXT_MODULE_NAME@, Self::TX_CONTEXT_IDS_CREATED_FUNCTION_NAME@),
    {
        self.get_fun_qid_opt(Self::SUI_TX_CONTEXT_MODULE_NAME, Self::TX_CONTEXT_IDS_CREATED_FUNCTION_NAME)
    }

    /// The qualified id of `tx_context::native_gas_budget`, if the environment declares it.
    pub fn sui_tx_context_gas_budget_qid(&self) -> (r: Option<QualifiedId<FunId>>)
        requires
            self.wf(),
        ensures
            r == self.fun_qid_opt(Self::SUI_TX_CONTEXT_MODULE_NAME@, Self::TX_CONTEXT_GAS_BUDGET_FUNCTION_NAME@),
    {
        self.get_fun_qid_opt(Self::SUI_TX_CONTEXT_MODULE_NAME, Self::TX_CONTEXT_GAS_BUDGET_FUNCTION_NAME)
    }

    /// The qualified id of `tx_context::last_created_id`, if the environment declares it.
    pub fn sui_tx_context_last_created_id_qid(&self) -> (r: Option<QualifiedId<FunId>>)
        requires
            self.wf(),
        ensures
            r == self.fun_qid_opt(Self::SUI_TX_CONTEXT_MODULE_NAME@, Self::TX_CONTEXT_LAST_CREATED_ID_FUNCTION_NAME@),
    {
        self.get_fun_qid_opt(Self::SUI_TX_CONTEXT_MODULE_NAME, Self::TX_CONTEXT_LAST_CREATED_ID_FUNCTION_NAME)
    }

    /// The qualified id of `tx_context::native_sponsor`, if the environment declares it.
    pub fn sui_tx_context_sponsor_qid(&self) -> (r: Option<QualifiedId<FunId>>)
        requires
            self.wf(),
        ensures
            r == self.fun_qid_opt(Self::SUI_TX_CONTEXT_MODULE_NAME@, Self::TX_CONTEXT_SPONSOR_FUNCTION_NAME@),
    {
        self.get_fun_qid_opt(Self::SUI_TX_CONTEXT_MODULE_NAME, Self::TX_CONTEXT_SPONSOR_FUNCTION_NAME)
    }

    /// The qualified id of `tx_context::replace`, if the environment declares it.
    pub fn sui_tx_context_replace_qid(&self) -> (r: Option<QualifiedId<FunId>>)
        requires
            self.wf(),
        ensures
            r == self.fun_qid_opt(Self::SUI_TX_CONTEXT_MODULE_NAME@, Self::TX_CONTEXT_REPLACE_FUNCTION_NAME@),
    {
        self.get_fun_qid_opt(Self::SUI_TX_CONTEXT_MODULE_NAME, Self::TX_CONTEXT_REPLACE_FUNCTION_NAME)
    }

    /// The qualified id of `tx_context::derive_id`, if the environment declares it.
    pub fn sui_tx_context_derive_id_qid(&self) -> (r: Option<QualifiedId<FunId>>)
        requires
            self.wf(),
        ensures
            r == self.fun_qid_opt(Self::SUI_TX_CONTEXT_MODULE_NAME@, Self::TX_CONTEXT_DERIVE_ID_FUNCTION_NAME@),
    {
        self.get_fun_qid_opt(Self::SUI_TX_CONTEXT_MODULE_NAME, Self::TX_CONTEXT_DERIVE_ID_FUNCTION_NAME)
    }
}


impl GlobalEnv {
    /// The qualified id of the struct `vec_set::VecSet`, if the environment declares it.
    pub fn vec_set_qid(&self) -> (r: Option<QualifiedId<DatatypeId>>)
        requires
            self.wf(),
        ensures
            r matches Some(q) ==> self.finds_struct(q, Self::VEC_SET_MODULE_NAME@, Self::VEC_SET_STRUCT_NAME@),
            r is None ==> !self.has_struct_named(Self::VEC_SET_MODULE_NAME@, Self::VEC_SET_STRUCT_NAME@),
    {
        self.get_struct_qid_opt(Self::VEC_SET_MODULE_NAME, Self::VEC_SET_STRUCT_NAME)
    }

    /// The qualified id of the struct `vec_map::VecMap`, if the environment declares it.
    pub fn vec_map_qid(&self) -> (r: Option<QualifiedId<DatatypeId>>)
        requires
            self.wf(),
        ensures
            r matches Some(q) ==> self.finds_struct(q, Self::VEC_MAP_MODULE_NAME@, Self::VEC_MAP_STRUCT_NAME@),
            r is None ==> !self.has_struct_named(Self::VEC_MAP_MODULE_NAME@, Self::VEC_MAP_STRUCT_NAME@),
    {
        self.get_struct_qid_opt(Self::VEC_MAP_MODULE_NAME, Self::VEC_MAP_STRUCT_NAME)
    }

    /// The qualified id of the struct `vec_map::Entry`, if the environment declares it.
    pub fn vec_map_entry_qid(&self) -> (r: Option<QualifiedId<DatatypeId>>)
        requires
            self.wf(),
        ensures
            r matches Some(q) ==> self.finds_struct(q, Self::VEC_MAP_MODULE_NAME@, Self::VEC_MAP_ENTRY_STRUCT_NAME@),
            r is None ==> !self.has_struct_named(Self::VEC_MAP_MODULE_NAME@, Self::VEC_MAP_ENTRY_STRUCT_NAME@),
    {
        self.get_struct_qid_opt(Self::VEC_MAP_MODULE_NAME, Self::VEC_MAP_ENTRY_STRUCT_NAME)
    }

    /// The qualified id of the struct `table_vec::TableVec`, if the environment declares it.
    pub fn table_vec_qid(&self) -> (r: Option<QualifiedId<DatatypeId>>)
        requires
            self.wf(),
        ensures
            r matches Some(q) ==> self.finds_struct(q, Self::TABLE_VEC_MODULE_NAME@, Self::TABLE_VEC_STRUCT_NAME@),
            r is None ==> !self.has_struct_named(Self::TABLE_VEC_MODULE_NAME@, Self::TABLE_VEC_STRUCT_NAME@),
    {
        self.get_struct_qid_opt(Self::TABLE_VEC_MODULE_NAME, Self::TABLE_VEC_STRUCT_NAME)
    }

    /// The qualified id of the struct `option::Option`, if the environment declares it.
    pub fn option_qid(&self) -> (r: Option<QualifiedId<DatatypeId>>)
        requires
            self.wf(),
        ensures
            r matches Some(q) ==> self.finds_struct(q, Self::OPTION_MODULE_NAME@, Self::OPTION_STRUCT_NAME@),
            r is None ==> !self.has_struct_named(Self::OPTION_MODULE_NAME@, Self::OPTION_STRUCT_NAME@),
    {
        self.get_struct_qid_opt(Self::OPTION_MODULE_NAME, Self::OPTION_STRUCT_NAME)
    }

    /// The qualified id of the struct `table::Table`, if the environment declares it.
    pub fn table_qid(&self) -> (r: Option<QualifiedId<DatatypeId>>)
        requires
            self.wf(),
        ensures
            r matches Some(q) ==> self.finds_struct(q, Self::TABLE_MODULE_NAME@, Self::TABLE_STRUCT_NAME@),
            r is None ==> !self.has_struct_named(Self::TABLE_MODULE_NAME@, Self::TABLE_STRUCT_NAME@),
    {
        self.get_struct_qid_opt(Self::TABLE_MODULE_NAME, Self::TABLE_STRUCT_NAME)
    }

    /// The qualified id of the struct `object_table::ObjectTable`, if the environment declares it.
    pub fn object_table_qid(&self) -> (r: Option<QualifiedId<DatatypeId>>)
        requires
            self.wf(),
        ensures
            r matches Some(q) ==> self.finds_struct(q, Self::OBJECT_TABLE_MODULE_NAME@, Self::OBJECT_TABLE_STRUCT_NAME@),
            r is None ==> !self.has_struct_named(Self::OBJECT_TABLE_MODULE_NAME@, Self::OBJECT_TABLE_STRUCT_NAME@),
    {
        self.get_struct_qid_opt(Self::OBJECT_TABLE_MODULE_NAME, Self::OBJECT_TABLE_STRUCT_NAME)
    }

    /// The qualified id of the struct `object::UID`, if the environment declares it.
    pub fn uid_qid(&self) -> (r: Option<QualifiedId<DatatypeId>>)
        requires
            self.wf(),
        ensures
            r matches Some(q) ==> self.finds_struct(q, Self::OBJECT_MODULE_NAME@, Self::OBJECT_UID_STRUCT_NAME@),
            r is None ==> !self.has_struct_named(Self::OBJECT_MODULE_NAME@, Self::OBJECT_UID_STRUCT_NAME@),
    {
        self.get_struct_qid_opt(Self::OBJECT_MODULE_NAME, Self::OBJECT_UID_STRUCT_NAME)
    }

    /// The qualified id of the struct `object::ID`, if the environment declares it.
    pub fn id_qid(&self) -> (r: Option<QualifiedId<DatatypeId>>)
        requires
            self.wf(),
        ensures
            r matches Some(q) ==> self.finds_struct(q, Self::OBJECT_MODULE_NAME@, Self::OBJECT_ID_STRUCT_NAME@),
            r is None ==> !self.has_struct_named(Self::OBJECT_MODULE_NAME@, Self::OBJECT_ID_STRUCT_NAME@),
    {
        self.get_struct_qid_opt(Self::OBJECT_MODULE_NAME, Self::OBJECT_ID_STRUCT_NAME)
    }
}

} // verus!
