//! Emits the minimal guest module: one function type `(i64) -> i64`, one
//! 64-bit-indexed memory with an unbounded maximum, one exported memory named
//! `"memory"`, and one exported function named `"f"` whose body is a
//! fetch-and-increment over that memory.
//!
//! Every byte of the module is pinned by the spec functions here, composed
//! from the section, type, limits, export and instruction encodings of the
//! wasm binary format.

use vstd::prelude::*;
use crate::codec::push_bytes;
use crate::codec::push_uleb;
use crate::codec::uleb;
use crate::region::MAX_PAGES;

verus! {

pub const TYPE_SECTION_ID: u8 = 1;
pub const FUNCTION_SECTION_ID: u8 = 3;
pub const MEMORY_SECTION_ID: u8 = 5;
pub const EXPORT_SECTION_ID: u8 = 7;
pub const CODE_SECTION_ID: u8 = 10;

/// Tag opening a function type.
pub const FUNC_TYPE_TAG: u8 = 0x60;
/// Value type code of a 64-bit integer.
pub const I64_TYPE: u8 = 0x7e;
/// Limits flag: 64-bit indexed, no maximum, unshared.
pub const LIMITS_MEMORY64_UNBOUNDED: u8 = 0x04;

pub const EXPORT_KIND_FUNC: u8 = 0;
pub const EXPORT_KIND_MEMORY: u8 = 2;

pub const OP_LOCAL_GET: u8 = 0x20;
pub const OP_LOCAL_TEE: u8 = 0x22;
pub const OP_I64_LOAD: u8 = 0x29;
pub const OP_I64_STORE: u8 = 0x37;
pub const OP_I64_CONST: u8 = 0x42;
pub const OP_I64_ADD: u8 = 0x7c;
pub const OP_END: u8 = 0x0b;

/// The module preamble: magic bytes, then the format version.
pub open spec fn magic() -> Seq<u8> {
    seq![0x00u8, 0x61, 0x73, 0x6d]
}

pub open spec fn version() -> Seq<u8> {
    seq![0x01u8, 0x00, 0x00, 0x00]
}

/// A section: its id, the payload's length, then the payload.
pub open spec fn section(id: u8, payload: Seq<u8>) -> Seq<u8> {
    seq![id] + uleb(payload.len()) + payload
}

/// A function type: the tag, then the parameter and result type vectors.
pub open spec fn func_type(params: Seq<u8>, results: Seq<u8>) -> Seq<u8> {
    seq![FUNC_TYPE_TAG] + uleb(params.len()) + params + uleb(results.len()) + results
}

/// Limits of a 64-bit indexed, unshared memory without a declared maximum.
pub open spec fn limits64_unbounded(min_pages: nat) -> Seq<u8> {
    seq![LIMITS_MEMORY64_UNBOUNDED] + uleb(min_pages)
}

/// One export entry: name length, name bytes, kind, index.
pub open spec fn export_entry(name: Seq<u8>, kind: u8, index: nat) -> Seq<u8> {
    uleb(name.len()) + name + seq![kind] + uleb(index)
}

/// The name of the exported memory, `"memory"`, as UTF-8 bytes.
pub open spec fn memory_export_name() -> Seq<u8> {
    seq![0x6du8, 0x65, 0x6d, 0x6f, 0x72, 0x79]
}

/// The name of the exported function, `"f"`, as UTF-8 bytes.
pub open spec fn func_export_name() -> Seq<u8> {
    seq![0x66u8]
}

/// A memory argument: alignment exponent, then offset.
pub open spec fn memarg(align: nat, offset: nat) -> Seq<u8> {
    uleb(align) + uleb(offset)
}

pub open spec fn instr_local_get(idx: nat) -> Seq<u8> {
    seq![OP_LOCAL_GET] + uleb(idx)
}

pub open spec fn instr_local_tee(idx: nat) -> Seq<u8> {
    seq![OP_LOCAL_TEE] + uleb(idx)
}

pub open spec fn instr_i64_load(align: nat, offset: nat) -> Seq<u8> {
    seq![OP_I64_LOAD] + memarg(align, offset)
}

pub open spec fn instr_i64_store(align: nat, offset: nat) -> Seq<u8> {
    seq![OP_I64_STORE] + memarg(align, offset)
}

/// A 64-bit constant in `0 ..= 63`, whose signed LEB128 encoding is the one
/// byte holding the value itself.
pub open spec fn instr_i64_const_small(c: u8) -> Seq<u8> {
    seq![OP_I64_CONST, c]
}

/// The guest function's body: no local declarations, then fetch-and-
/// increment. The parameter is the address: load the 8-byte word there,
/// keep it, store the word plus one back, return the kept word.
pub open spec fn guest_body() -> Seq<u8> {
    seq![0x00u8] + instr_local_get(0) + instr_local_get(0) + instr_i64_load(3, 0)
        + instr_local_tee(0) + instr_i64_const_small(1) + seq![OP_I64_ADD]
        + instr_i64_store(3, 0) + instr_local_get(0) + seq![OP_END]
}

/// Type section payload: one function type, `(i64) -> i64`.
pub open spec fn type_payload() -> Seq<u8> {
    uleb(1) + func_type(seq![I64_TYPE], seq![I64_TYPE])
}

/// Function section payload: one function, of type index zero.
pub open spec fn function_payload() -> Seq<u8> {
    uleb(1) + uleb(0)
}

/// Memory section payload: one 64-bit indexed memory, minimum page count
/// just under the reserved maximum, no declared maximum.
pub open spec fn memory_payload() -> Seq<u8> {
    uleb(1) + limits64_unbounded((MAX_PAGES - 1) as nat)
}

/// Export section payload: the memory as `"memory"`, the function as `"f"`,
/// both at index zero.
pub open spec fn export_payload() -> Seq<u8> {
    uleb(2) + export_entry(memory_export_name(), EXPORT_KIND_MEMORY, 0)
        + export_entry(func_export_name(), EXPORT_KIND_FUNC, 0)
}

/// Code section payload: one function body.
pub open spec fn code_payload() -> Seq<u8> {
    uleb(1) + uleb(guest_body().len()) + guest_body()
}

/// Every byte of the guest module: the preamble, then the type, function,
/// memory, export and code sections.
pub open spec fn guest_module_spec() -> Seq<u8> {
    magic() + version() + section(TYPE_SECTION_ID, type_payload())
        + section(FUNCTION_SECTION_ID, function_payload())
        + section(MEMORY_SECTION_ID, memory_payload())
        + section(EXPORT_SECTION_ID, export_payload())
        + section(CODE_SECTION_ID, code_payload())
}

/// Append one section: id, payload length, payload.
fn push_section(out: &mut Vec<u8>, id: u8, payload: &Vec<u8>)
    ensures
        final(out)@ == old(out)@ + section(id, payload@),
{
    let ghost base: Seq<u8> = out@;
    out.push(id);
    push_uleb(out, payload.len() as u64);
    push_bytes(out, payload);
    proof {
        assert(out@ =~= base + section(id, payload@));
    }
}

/// Append one `local.get`.
fn push_local_get(out: &mut Vec<u8>, idx: u64)
    ensures
        final(out)@ == old(out)@ + instr_local_get(idx as nat),
{
    let ghost base: Seq<u8> = out@;
    out.push(OP_LOCAL_GET);
    push_uleb(out, idx);
    proof {
        assert(out@ =~= base + instr_local_get(idx as nat));
    }
}

/// Append one `local.tee`.
fn push_local_tee(out: &mut Vec<u8>, idx: u64)
    ensures
        final(out)@ == old(out)@ + instr_local_tee(idx as nat),
{
    let ghost base: Seq<u8> = out@;
    out.push(OP_LOCAL_TEE);
    push_uleb(out, idx);
    proof {
        assert(out@ =~= base + instr_local_tee(idx as nat));
    }
}

/// Append one `i64.load` with its memory argument.
fn push_i64_load(out: &mut Vec<u8>, align: u64, offset: u64)
    ensures
        final(out)@ == old(out)@ + instr_i64_load(align as nat, offset as nat),
{
    let ghost base: Seq<u8> = out@;
    out.push(OP_I64_LOAD);
    push_uleb(out, align);
    push_uleb(out, offset);
    proof {
        assert(out@ =~= base + instr_i64_load(align as nat, offset as nat));
    }
}

/// Append one `i64.store` with its memory argument.
fn push_i64_store(out: &mut Vec<u8>, align: u64, offset: u64)
    ensures
        final(out)@ == old(out)@ + instr_i64_store(align as nat, offset as nat),
{
    let ghost base: Seq<u8> = out@;
    out.push(OP_I64_STORE);
    push_uleb(out, align);
    push_uleb(out, offset);
    proof {
        assert(out@ =~= base + instr_i64_store(align as nat, offset as nat));
    }
}

/// Build the guest function's body bytes.
fn build_guest_body() -> (r: Vec<u8>)
    ensures
        r@ == guest_body(),
{
    let mut out: Vec<u8> = Vec::new();
    out.push(0x00);
    push_local_get(&mut out, 0);
    push_local_get(&mut out, 0);
    push_i64_load(&mut out, 3, 0);
    push_local_tee(&mut out, 0);
    out.push(OP_I64_CONST);
    out.push(0x01);
    out.push(OP_I64_ADD);
    push_i64_store(&mut out, 3, 0);
    push_local_get(&mut out, 0);
    out.push(OP_END);
    proof {
        assert(out@ =~= guest_body());
    }
    out
}

/// Build the type section payload.
fn build_type_payload() -> (r: Vec<u8>)
    ensures
        r@ == type_payload(),
{
    let mut out: Vec<u8> = Vec::new();
    push_uleb(&mut out, 1);
    out.push(FUNC_TYPE_TAG);
    push_uleb(&mut out, 1);
    out.push(I64_TYPE);
    push_uleb(&mut out, 1);
    out.push(I64_TYPE);
    proof {
        assert(out@ =~= type_payload());
    }
    out
}

/// Build the function section payload.
fn build_function_payload() -> (r: Vec<u8>)
    ensures
        r@ == function_payload(),
{
    let mut out: Vec<u8> = Vec::new();
    push_uleb(&mut out, 1);
    push_uleb(&mut out, 0);
    proof {
        assert(out@ =~= function_payload());
    }
    out
}

/// Build the memory section payload.
fn build_memory_payload() -> (r: Vec<u8>)
    ensures
        r@ == memory_payload(),
{
    let mut out: Vec<u8> = Vec::new();
    push_uleb(&mut out, 1);
    out.push(LIMITS_MEMORY64_UNBOUNDED);
    push_uleb(&mut out, MAX_PAGES - 1);
    proof {
        assert(out@ =~= memory_payload());
    }
    out
}

/// Build the bytes of the exported memory's name, `"memory"`.
pub fn memory_export_name_bytes() -> (r: Vec<u8>)
    ensures
        r@ == memory_export_name(),
{
    let out: Vec<u8> = vec![0x6d, 0x65, 0x6d, 0x6f, 0x72, 0x79];
    proof {
        assert(out@ =~= memory_export_name());
    }
    out
}

/// Build the bytes of the exported function's name, `"f"`.
pub fn func_export_name_bytes() -> (r: Vec<u8>)
    ensures
        r@ == func_export_name(),
{
    let out: Vec<u8> = vec![0x66];
    proof {
        assert(out@ =~= func_export_name());
    }
    out
}

/// Append one export entry.
fn push_export(out: &mut Vec<u8>, name: &Vec<u8>, kind: u8, index: u64)
    ensures
        final(out)@ == old(out)@ + export_entry(name@, kind, index as nat),
{
    let ghost base: Seq<u8> = out@;
    push_uleb(out, name.len() as u64);
    push_bytes(out, name);
    out.push(kind);
    push_uleb(out, index);
    proof {
        assert(out@ =~= base + export_entry(name@, kind, index as nat));
    }
}

/// Build the export section payload.
fn build_export_payload() -> (r: Vec<u8>)
    ensures
        r@ == export_payload(),
{
    let mut out: Vec<u8> = Vec::new();
    push_uleb(&mut out, 2);
    let memory_name = memory_export_name_bytes();
    push_export(&mut out, &memory_name, EXPORT_KIND_MEMORY, 0);
    let func_name = func_export_name_bytes();
    push_export(&mut out, &func_name, EXPORT_KIND_FUNC, 0);
    proof {
        assert(out@ =~= export_payload());
    }
    out
}

/// Build the code section payload.
fn build_code_payload() -> (r: Vec<u8>)
    ensures
        r@ == code_payload(),
{
    let mut out: Vec<u8> = Vec::new();
    push_uleb(&mut out, 1);
    let body = build_guest_body();
    push_uleb(&mut out, body.len() as u64);
    push_bytes(&mut out, &body);
    proof {
        assert(out@ =~= code_payload());
    }
    out
}

/// Emit the whole guest module, byte for byte as `guest_module_spec` says.
pub fn build_guest_module() -> (r: Vec<u8>)
    ensures
        r@ == guest_module_spec(),
{
    let mut out: Vec<u8> = Vec::new();
    out.push(0x00);
    out.push(0x61);
    out.push(0x73);
    out.push(0x6d);
    out.push(0x01);
    out.push(0x00);
    out.push(0x00);
    out.push(0x00);
    proof {
        assert(out@ =~= magic() + version());
    }
    let types = build_type_payload();
    push_section(&mut out, TYPE_SECTION_ID, &types);
    let functions = build_function_payload();
    push_section(&mut out, FUNCTION_SECTION_ID, &functions);
    let memories = build_memory_payload();
    push_section(&mut out, MEMORY_SECTION_ID, &memories);
    let exports = build_export_payload();
    push_section(&mut out, EXPORT_SECTION_ID, &exports);
    let codes = build_code_payload();
    push_section(&mut out, CODE_SECTION_ID, &codes);
    proof {
        assert(out@ =~= guest_module_spec());
    }
    out
}

} // verus!
