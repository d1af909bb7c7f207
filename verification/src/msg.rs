//! Fixed byte-string constants of the execution protocol: the reserved
//! storage-key prefix, the closed set of failure messages, and the system
//! endpoint names. Each has a spec-level sequence and an exec constructor.

use vstd::prelude::*;

verus! {

/// The storage-key prefix the engine reserves for itself. (`"ELROND"`)
pub open spec fn reserved_key_prefix() -> Seq<u8> {
    seq![69u8, 76, 82, 79, 78, 68]
}

/// Exec form of [`reserved_key_prefix`].
pub fn reserved_key_prefix_vec() -> (r: Vec<u8>)
    ensures
        r@ =~= reserved_key_prefix(),
{
    let mut v: Vec<u8> = Vec::new();
    v.push(69);
    v.push(76);
    v.push(82);
    v.push(79);
    v.push(78);
    v.push(68);
    proof { assert(v@ =~= reserved_key_prefix()); }
    v
}

/// Message of the reserved-key write failure. (`"cannot write to storage under Elrond reserved key"`)
pub open spec fn msg_reserved_key() -> Seq<u8> {
    seq![99u8, 97, 110, 110, 111, 116, 32, 119, 114, 105, 116, 101, 32, 116, 111, 32, 115, 116, 111, 114, 97, 103, 101, 32, 117, 110, 100, 101, 114, 32, 69, 108, 114, 111, 110, 100, 32, 114, 101, 115, 101, 114, 118, 101, 100, 32, 107, 101, 121]
}

/// Exec form of [`msg_reserved_key`].
pub fn msg_reserved_key_vec() -> (r: Vec<u8>)
    ensures
        r@ =~= msg_reserved_key(),
{
    let mut v: Vec<u8> = Vec::new();
    v.push(99);
    v.push(97);
    v.push(110);
    v.push(110);
    v.push(111);
    v.push(116);
    v.push(32);
    v.push(119);
    v.push(114);
    v.push(105);
    v.push(116);
    v.push(101);
    v.push(32);
    v.push(116);
    v.push(111);
    v.push(32);
    v.push(115);
    v.push(116);
    v.push(111);
    v.push(114);
    v.push(97);
    v.push(103);
    v.push(101);
    v.push(32);
    v.push(117);
    v.push(110);
    v.push(100);
    v.push(101);
    v.push(114);
    v.push(32);
    v.push(69);
    v.push(108);
    v.push(114);
    v.push(111);
    v.push(110);
    v.push(100);
    v.push(32);
    v.push(114);
    v.push(101);
    v.push(115);
    v.push(101);
    v.push(114);
    v.push(118);
    v.push(101);
    v.push(100);
    v.push(32);
    v.push(107);
    v.push(101);
    v.push(121);
    proof { assert(v@ =~= msg_reserved_key()); }
    v
}

/// Prefix of a translated textual panic message. (`"panic occurred: "`)
pub open spec fn msg_panic_prefix() -> Seq<u8> {
    seq![112u8, 97, 110, 105, 99, 32, 111, 99, 99, 117, 114, 114, 101, 100, 58, 32]
}

/// Exec form of [`msg_panic_prefix`].
pub fn msg_panic_prefix_vec() -> (r: Vec<u8>)
    ensures
        r@ =~= msg_panic_prefix(),
{
    let mut v: Vec<u8> = Vec::new();
    v.push(112);
    v.push(97);
    v.push(110);
    v.push(105);
    v.push(99);
    v.push(32);
    v.push(111);
    v.push(99);
    v.push(99);
    v.push(117);
    v.push(114);
    v.push(114);
    v.push(101);
    v.push(100);
    v.push(58);
    v.push(32);
    proof { assert(v@ =~= msg_panic_prefix()); }
    v
}

/// Placeholder used when diagnostic detail is disabled. (`"panic occurred"`)
pub open spec fn msg_panic_generic() -> Seq<u8> {
    seq![112u8, 97, 110, 105, 99, 32, 111, 99, 99, 117, 114, 114, 101, 100]
}

/// Exec form of [`msg_panic_generic`].
pub fn msg_panic_generic_vec() -> (r: Vec<u8>)
    ensures
        r@ =~= msg_panic_generic(),
{
    let mut v: Vec<u8> = Vec::new();
    v.push(112);
    v.push(97);
    v.push(110);
    v.push(105);
    v.push(99);
    v.push(32);
    v.push(111);
    v.push(99);
    v.push(99);
    v.push(117);
    v.push(114);
    v.push(114);
    v.push(101);
    v.push(100);
    proof { assert(v@ =~= msg_panic_generic()); }
    v
}

/// Message of a termination of no known shape. (`"unknown panic object"`)
pub open spec fn msg_unknown_panic() -> Seq<u8> {
    seq![117u8, 110, 107, 110, 111, 119, 110, 32, 112, 97, 110, 105, 99, 32, 111, 98, 106, 101, 99, 116]
}

/// Exec form of [`msg_unknown_panic`].
pub fn msg_unknown_panic_vec() -> (r: Vec<u8>)
    ensures
        r@ =~= msg_unknown_panic(),
{
    let mut v: Vec<u8> = Vec::new();
    v.push(117);
    v.push(110);
    v.push(107);
    v.push(110);
    v.push(111);
    v.push(119);
    v.push(110);
    v.push(32);
    v.push(112);
    v.push(97);
    v.push(110);
    v.push(105);
    v.push(99);
    v.push(32);
    v.push(111);
    v.push(98);
    v.push(106);
    v.push(101);
    v.push(99);
    v.push(116);
    proof { assert(v@ =~= msg_unknown_panic()); }
    v
}

/// Message when no endpoint of the requested name exists. (`"invalid function (not found)"`)
pub open spec fn msg_invalid_function() -> Seq<u8> {
    seq![105u8, 110, 118, 97, 108, 105, 100, 32, 102, 117, 110, 99, 116, 105, 111, 110, 32, 40, 110, 111, 116, 32, 102, 111, 117, 110, 100, 41]
}

/// Exec form of [`msg_invalid_function`].
pub fn msg_invalid_function_vec() -> (r: Vec<u8>)
    ensures
        r@ =~= msg_invalid_function(),
{
    let mut v: Vec<u8> = Vec::new();
    v.push(105);
    v.push(110);
    v.push(118);
    v.push(97);
    v.push(108);
    v.push(105);
    v.push(100);
    v.push(32);
    v.push(102);
    v.push(117);
    v.push(110);
    v.push(99);
    v.push(116);
    v.push(105);
    v.push(111);
    v.push(110);
    v.push(32);
    v.push(40);
    v.push(110);
    v.push(111);
    v.push(116);
    v.push(32);
    v.push(102);
    v.push(111);
    v.push(117);
    v.push(110);
    v.push(100);
    v.push(41);
    proof { assert(v@ =~= msg_invalid_function()); }
    v
}

/// Message of a failed balance transfer. (`"insufficient funds"`)
pub open spec fn msg_insufficient_funds() -> Seq<u8> {
    seq![105u8, 110, 115, 117, 102, 102, 105, 99, 105, 101, 110, 116, 32, 102, 117, 110, 100, 115]
}

/// Exec form of [`msg_insufficient_funds`].
pub fn msg_insufficient_funds_vec() -> (r: Vec<u8>)
    ensures
        r@ =~= msg_insufficient_funds(),
{
    let mut v: Vec<u8> = Vec::new();
    v.push(105);
    v.push(110);
    v.push(115);
    v.push(117);
    v.push(102);
    v.push(102);
    v.push(105);
    v.push(99);
    v.push(105);
    v.push(101);
    v.push(110);
    v.push(116);
    v.push(32);
    v.push(102);
    v.push(117);
    v.push(110);
    v.push(100);
    v.push(115);
    proof { assert(v@ =~= msg_insufficient_funds()); }
    v
}

/// Message when a numeric argument does not fit the requested width. (`"argument out of range"`)
pub open spec fn msg_arg_out_of_range() -> Seq<u8> {
    seq![97u8, 114, 103, 117, 109, 101, 110, 116, 32, 111, 117, 116, 32, 111, 102, 32, 114, 97, 110, 103, 101]
}

/// Exec form of [`msg_arg_out_of_range`].
pub fn msg_arg_out_of_range_vec() -> (r: Vec<u8>)
    ensures
        r@ =~= msg_arg_out_of_range(),
{
    let mut v: Vec<u8> = Vec::new();
    v.push(97);
    v.push(114);
    v.push(103);
    v.push(117);
    v.push(109);
    v.push(101);
    v.push(110);
    v.push(116);
    v.push(32);
    v.push(111);
    v.push(117);
    v.push(116);
    v.push(32);
    v.push(111);
    v.push(102);
    v.push(32);
    v.push(114);
    v.push(97);
    v.push(110);
    v.push(103);
    v.push(101);
    proof { assert(v@ =~= msg_arg_out_of_range()); }
    v
}

/// Message when value is sent to a non-payable endpoint. (`"function does not accept EGLD payment"`)
pub open spec fn msg_non_payable() -> Seq<u8> {
    seq![102u8, 117, 110, 99, 116, 105, 111, 110, 32, 100, 111, 101, 115, 32, 110, 111, 116, 32, 97, 99, 99, 101, 112, 116, 32, 69, 71, 76, 68, 32, 112, 97, 121, 109, 101, 110, 116]
}

/// Exec form of [`msg_non_payable`].
pub fn msg_non_payable_vec() -> (r: Vec<u8>)
    ensures
        r@ =~= msg_non_payable(),
{
    let mut v: Vec<u8> = Vec::new();
    v.push(102);
    v.push(117);
    v.push(110);
    v.push(99);
    v.push(116);
    v.push(105);
    v.push(111);
    v.push(110);
    v.push(32);
    v.push(100);
    v.push(111);
    v.push(101);
    v.push(115);
    v.push(32);
    v.push(110);
    v.push(111);
    v.push(116);
    v.push(32);
    v.push(97);
    v.push(99);
    v.push(99);
    v.push(101);
    v.push(112);
    v.push(116);
    v.push(32);
    v.push(69);
    v.push(71);
    v.push(76);
    v.push(68);
    v.push(32);
    v.push(112);
    v.push(97);
    v.push(121);
    v.push(109);
    v.push(101);
    v.push(110);
    v.push(116);
    proof { assert(v@ =~= msg_non_payable()); }
    v
}

/// Endpoint name of the system transfer log. (`"transferValueOnly"`)
pub open spec fn endpoint_transfer_value_only() -> Seq<u8> {
    seq![116u8, 114, 97, 110, 115, 102, 101, 114, 86, 97, 108, 117, 101, 79, 110, 108, 121]
}

/// Exec form of [`endpoint_transfer_value_only`].
pub fn endpoint_transfer_value_only_vec() -> (r: Vec<u8>)
    ensures
        r@ =~= endpoint_transfer_value_only(),
{
    let mut v: Vec<u8> = Vec::new();
    v.push(116);
    v.push(114);
    v.push(97);
    v.push(110);
    v.push(115);
    v.push(102);
    v.push(101);
    v.push(114);
    v.push(86);
    v.push(97);
    v.push(108);
    v.push(117);
    v.push(101);
    v.push(79);
    v.push(110);
    v.push(108);
    v.push(121);
    proof { assert(v@ =~= endpoint_transfer_value_only()); }
    v
}

/// The canonical initializer endpoint of a deployed contract. (`"init"`)
pub open spec fn endpoint_init() -> Seq<u8> {
    seq![105u8, 110, 105, 116]
}

/// Exec form of [`endpoint_init`].
pub fn endpoint_init_vec() -> (r: Vec<u8>)
    ensures
        r@ =~= endpoint_init(),
{
    let mut v: Vec<u8> = Vec::new();
    v.push(105);
    v.push(110);
    v.push(105);
    v.push(116);
    proof { assert(v@ =~= endpoint_init()); }
    v
}

} // verus!
