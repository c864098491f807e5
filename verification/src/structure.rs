//! The structural contract on the guest module, read back from its bytes:
//! a recogniser for the module layout the mechanism consumes — exactly one
//! function type, one memory declaration, one memory export and one function
//! export — and the proof that the emitted module round-trips to exactly the
//! declared structure.

use vstd::prelude::*;
use crate::builder::CODE_SECTION_ID;
use crate::builder::EXPORT_KIND_FUNC;
use crate::builder::EXPORT_KIND_MEMORY;
use crate::builder::EXPORT_SECTION_ID;
use crate::builder::FUNCTION_SECTION_ID;
use crate::builder::FUNC_TYPE_TAG;
use crate::builder::I64_TYPE;
use crate::builder::LIMITS_MEMORY64_UNBOUNDED;
use crate::builder::MEMORY_SECTION_ID;
use crate::builder::TYPE_SECTION_ID;
use crate::builder::code_payload;
use crate::builder::export_entry;
use crate::builder::export_payload;
use crate::builder::func_export_name;
use crate::builder::func_type;
use crate::builder::function_payload;
use crate::builder::guest_body;
use crate::builder::guest_module_spec;
use crate::builder::limits64_unbounded;
use crate::builder::magic;
use crate::builder::memory_export_name;
use crate::builder::memory_payload;
use crate::builder::section;
use crate::builder::type_payload;
use crate::builder::version;
use crate::codec::lemma_uleb_decode_encode;
use crate::codec::uleb;
use crate::codec::uleb_decode;
use crate::region::MAX_PAGES;

verus! {

/// One export, as a module's export section declares it.
#[verifier::ext_equal]
pub ghost struct ExportShape {
    /// The export's name, as UTF-8 bytes.
    pub name: Seq<u8>,
    /// The kind tag: function, table, memory or global.
    pub kind: u8,
    /// The index of the exported item.
    pub index: nat,
}

/// Everything the structural contract speaks of, read back from a module's
/// bytes: the one function type's parameters and results, the one function's
/// type index, the one memory's limits flag and minimum page count, the
/// exports, and the one function body.
#[verifier::ext_equal]
pub ghost struct ModuleShape {
    pub params: Seq<u8>,
    pub results: Seq<u8>,
    pub func_type_index: nat,
    pub mem_limits_flag: u8,
    pub mem_min_pages: nat,
    pub exports: Seq<ExportShape>,
    pub body: Seq<u8>,
}

/// Whether a limits flag declares a 64-bit indexed memory.
pub open spec fn limits_flag_is_64(flags: u8) -> bool {
    flags & 0x04 == 0x04
}

/// Whether a limits flag declares a maximum size.
pub open spec fn limits_flag_has_max(flags: u8) -> bool {
    flags & 0x01 == 0x01
}

/// Whether a limits flag declares a shared memory.
pub open spec fn limits_flag_shared(flags: u8) -> bool {
    flags & 0x02 == 0x02
}

/// Split one section off the front of `b`: its id, its payload, and what
/// follows it.
pub open spec fn parse_section(b: Seq<u8>) -> Option<(u8, Seq<u8>, Seq<u8>)> {
    if b.len() < 1 {
        None
    } else {
        match uleb_decode(b.drop_first()) {
            Some(p) => {
                if p.1.len() < p.0 {
                    None
                } else {
                    Some((b[0], p.1.take(p.0 as int), p.1.skip(p.0 as int)))
                }
            },
            None => None,
        }
    }
}

/// Read one function type off the front of `b`: parameters, results, rest.
pub open spec fn parse_func_type(b: Seq<u8>) -> Option<(Seq<u8>, Seq<u8>, Seq<u8>)> {
    if b.len() < 1 || b[0] != FUNC_TYPE_TAG {
        None
    } else {
        match uleb_decode(b.drop_first()) {
            Some(p) => {
                if p.1.len() < p.0 {
                    None
                } else {
                    let params = p.1.take(p.0 as int);
                    match uleb_decode(p.1.skip(p.0 as int)) {
                        Some(q) => {
                            if q.1.len() < q.0 {
                                None
                            } else {
                                Some((params, q.1.take(q.0 as int), q.1.skip(q.0 as int)))
                            }
                        },
                        None => None,
                    }
                }
            },
            None => None,
        }
    }
}

/// Read one export entry off the front of `b`.
pub open spec fn parse_export(b: Seq<u8>) -> Option<(ExportShape, Seq<u8>)> {
    match uleb_decode(b) {
        Some(p) => {
            if p.1.len() < p.0 + 1 {
                None
            } else {
                let name = p.1.take(p.0 as int);
                let kind = p.1[p.0 as int];
                match uleb_decode(p.1.skip(p.0 as int + 1)) {
                    Some(q) => Some((ExportShape { name, kind, index: q.0 }, q.1)),
                    None => None,
                }
            }
        },
        None => None,
    }
}

/// The type section's payload, when it declares exactly one function type:
/// that type's parameters and results.
pub open spec fn parse_type_payload(b: Seq<u8>) -> Option<(Seq<u8>, Seq<u8>)> {
    match uleb_decode(b) {
        Some(p) => {
            if p.0 != 1 {
                None
            } else {
                match parse_func_type(p.1) {
                    Some(t) => {
                        if t.2.len() == 0 {
                            Some((t.0, t.1))
                        } else {
                            None
                        }
                    },
                    None => None,
                }
            }
        },
        None => None,
    }
}

/// The function section's payload, when it declares exactly one function:
/// that function's type index.
pub open spec fn parse_function_payload(b: Seq<u8>) -> Option<nat> {
    match uleb_decode(b) {
        Some(p) => {
            if p.0 != 1 {
                None
            } else {
                match uleb_decode(p.1) {
                    Some(q) => {
                        if q.1.len() == 0 {
                            Some(q.0)
                        } else {
                            None
                        }
                    },
                    None => None,
                }
            }
        },
        None => None,
    }
}

/// The memory section's payload, when it declares exactly one memory whose
/// limits carry no maximum field: the limits flag and the minimum page count.
pub open spec fn parse_memory_payload(b: Seq<u8>) -> Option<(u8, nat)> {
    match uleb_decode(b) {
        Some(p) => {
            if p.0 != 1 {
                None
            } else if p.1.len() < 1 {
                None
            } else {
                let flags = p.1[0];
                if limits_flag_has_max(flags) {
                    None
                } else {
                    match uleb_decode(p.1.drop_first()) {
                        Some(q) => {
                            if q.1.len() == 0 {
                                Some((flags, q.0))
                            } else {
                                None
                            }
                        },
                        None => None,
                    }
                }
            }
        },
        None => None,
    }
}

/// The export section's payload, when it declares exactly two exports.
pub open spec fn parse_export_payload(b: Seq<u8>) -> Option<Seq<ExportShape>> {
    match uleb_decode(b) {
        Some(p) => {
            if p.0 != 2 {
                None
            } else {
                match parse_export(p.1) {
                    Some(e1) => {
                        match parse_export(e1.1) {
                            Some(e2) => {
                                if e2.1.len() == 0 {
                                    Some(seq![e1.0, e2.0])
                                } else {
                                    None
                                }
                            },
                            None => None,
                        }
                    },
                    None => None,
                }
            }
        },
        None => None,
    }
}

/// The code section's payload, when it holds exactly one function body:
/// that body's bytes, local declarations included.
pub open spec fn parse_code_payload(b: Seq<u8>) -> Option<Seq<u8>> {
    match uleb_decode(b) {
        Some(p) => {
            if p.0 != 1 {
                None
            } else {
                match uleb_decode(p.1) {
                    Some(q) => {
                        if q.1.len() == q.0 {
                            Some(q.1)
                        } else {
                            None
                        }
                    },
                    None => None,
                }
            }
        },
        None => None,
    }
}

/// Read a whole module of the consumed layout: the preamble, then exactly a
/// type, a function, a memory, an export and a code section, in that order,
/// with nothing after them.
pub open spec fn parse_module(b: Seq<u8>) -> Option<ModuleShape> {
    if b.len() < 8 || b.take(8) != magic() + version() {
        None
    } else {
        match parse_section(b.skip(8)) {
            Some(s1) => {
                if s1.0 != TYPE_SECTION_ID {
                    None
                } else {
                    match (parse_type_payload(s1.1), parse_section(s1.2)) {
                        (Some(ty), Some(s2)) => {
                            if s2.0 != FUNCTION_SECTION_ID {
                                None
                            } else {
                                match (parse_function_payload(s2.1), parse_section(s2.2)) {
                                    (Some(fi), Some(s3)) => {
                                        if s3.0 != MEMORY_SECTION_ID {
                                            None
                                        } else {
                                            match (parse_memory_payload(s3.1), parse_section(s3.2)) {
                                                (Some(mem), Some(s4)) => {
                                                    if s4.0 != EXPORT_SECTION_ID {
                                                        None
                                                    } else {
                                                        match (parse_export_payload(s4.1), parse_section(s4.2)) {
                                                            (Some(ex), Some(s5)) => {
                                                                if s5.0 != CODE_SECTION_ID || s5.2.len() != 0 {
                                                                    None
                                                                } else {
                                                                    match parse_code_payload(s5.1) {
                                                                        Some(body) => Some(ModuleShape {
                                                                            params: ty.0,
                                                                            results: ty.1,
                                                                            func_type_index: fi,
                                                                            mem_limits_flag: mem.0,
                                                                            mem_min_pages: mem.1,
                                                                            exports: ex,
                                                                            body: body,
                                                                        }),
                                                                        None => None,
                                                                    }
                                                                }
                                                            },
                                                            _ => None,
                                                        }
                                                    }
                                                },
                                                _ => None,
                                            }
                                        }
                                    },
                                    _ => None,
                                }
                            }
                        },
                        _ => None,
                    }
                }
            },
            None => None,
        }
    }
}

/// The structure the guest module is built to have: signature
/// `(i64) -> i64`, a 64-bit indexed unshared memory of `MAX_PAGES - 1`
/// minimum pages and no maximum, the memory exported as `"memory"` and the
/// function as `"f"`, and the fetch-and-increment body.
pub open spec fn guest_module_shape() -> ModuleShape {
    ModuleShape {
        params: seq![I64_TYPE],
        results: seq![I64_TYPE],
        func_type_index: 0,
        mem_limits_flag: LIMITS_MEMORY64_UNBOUNDED,
        mem_min_pages: (MAX_PAGES - 1) as nat,
        exports: seq![
            ExportShape { name: memory_export_name(), kind: EXPORT_KIND_MEMORY, index: 0 },
            ExportShape { name: func_export_name(), kind: EXPORT_KIND_FUNC, index: 0 },
        ],
        body: guest_body(),
    }
}

/// Splitting a section off an encoded section yields its id, its payload and
/// the trailing bytes.
pub proof fn lemma_parse_section(id: u8, payload: Seq<u8>, rest: Seq<u8>)
    ensures
        parse_section(section(id, payload) + rest) == Some((id, payload, rest)),
{
    let b = section(id, payload) + rest;
    assert(b[0] == id);
    assert(b.drop_first() =~= uleb(payload.len()) + (payload + rest));
    lemma_uleb_decode_encode(payload.len(), payload + rest);
    assert((payload + rest).take(payload.len() as int) =~= payload);
    assert((payload + rest).skip(payload.len() as int) =~= rest);
}

/// Reading a function type off an encoded function type yields its
/// parameters, its results and the trailing bytes.
pub proof fn lemma_parse_func_type(params: Seq<u8>, results: Seq<u8>, rest: Seq<u8>)
    ensures
        parse_func_type(func_type(params, results) + rest) == Some((params, results, rest)),
{
    let b = func_type(params, results) + rest;
    assert(b[0] == FUNC_TYPE_TAG);
    assert(b.drop_first() =~= uleb(params.len()) + (params + (uleb(results.len()) + (results + rest))));
    lemma_uleb_decode_encode(params.len(), params + (uleb(results.len()) + (results + rest)));
    let r1 = params + (uleb(results.len()) + (results + rest));
    assert(r1.take(params.len() as int) =~= params);
    assert(r1.skip(params.len() as int) =~= uleb(results.len()) + (results + rest));
    lemma_uleb_decode_encode(results.len(), results + rest);
    assert((results + rest).take(results.len() as int) =~= results);
    assert((results + rest).skip(results.len() as int) =~= rest);
}

/// Reading an export entry off an encoded export entry yields its name, kind
/// and index, and the trailing bytes.
pub proof fn lemma_parse_export(name: Seq<u8>, kind: u8, index: nat, rest: Seq<u8>)
    ensures
        parse_export(export_entry(name, kind, index) + rest)
            == Some((ExportShape { name, kind, index }, rest)),
{
    let b = export_entry(name, kind, index) + rest;
    assert(b =~= uleb(name.len()) + (name + (seq![kind] + (uleb(index) + rest))));
    lemma_uleb_decode_encode(name.len(), name + (seq![kind] + (uleb(index) + rest)));
    let r1 = name + (seq![kind] + (uleb(index) + rest));
    assert(r1.len() >= name.len() + 1);
    assert(r1.take(name.len() as int) =~= name);
    assert(r1[name.len() as int] == kind);
    assert(r1.skip(name.len() as int + 1) =~= uleb(index) + rest);
    lemma_uleb_decode_encode(index, rest);
}

/// The emitted type section payload reads back as the one signature
/// `(i64) -> i64`.
pub proof fn lemma_parse_type_payload()
    ensures
        parse_type_payload(type_payload()) == Some((seq![I64_TYPE], seq![I64_TYPE])),
{
    lemma_uleb_decode_encode(1, func_type(seq![I64_TYPE], seq![I64_TYPE]));
    assert(type_payload() =~= uleb(1) + func_type(seq![I64_TYPE], seq![I64_TYPE]));
    lemma_parse_func_type(seq![I64_TYPE], seq![I64_TYPE], Seq::<u8>::empty());
    assert(func_type(seq![I64_TYPE], seq![I64_TYPE]) + Seq::<u8>::empty()
        =~= func_type(seq![I64_TYPE], seq![I64_TYPE]));
}

/// The emitted function section payload reads back as one function of type
/// index zero.
pub proof fn lemma_parse_function_payload()
    ensures
        parse_function_payload(function_payload()) == Some(0nat),
{
    lemma_uleb_decode_encode(1, uleb(0));
    assert(function_payload() =~= uleb(1) + uleb(0));
    lemma_uleb_decode_encode(0, Seq::<u8>::empty());
    assert(uleb(0) + Seq::<u8>::empty() =~= uleb(0));
}

/// The emitted memory section payload reads back as one 64-bit indexed
/// memory of `MAX_PAGES - 1` minimum pages without a maximum.
pub proof fn lemma_parse_memory_payload()
    ensures
        parse_memory_payload(memory_payload())
            == Some((LIMITS_MEMORY64_UNBOUNDED, (MAX_PAGES - 1) as nat)),
{
    let min: nat = (MAX_PAGES - 1) as nat;
    lemma_uleb_decode_encode(1, limits64_unbounded(min));
    assert(memory_payload() =~= uleb(1) + limits64_unbounded(min));
    let r = limits64_unbounded(min);
    assert(r[0] == LIMITS_MEMORY64_UNBOUNDED);
    assert(0x04u8 & 0x01 != 0x01) by (bit_vector);
    assert(r.drop_first() =~= uleb(min) + Seq::<u8>::empty());
    lemma_uleb_decode_encode(min, Seq::<u8>::empty());
}

/// The emitted export section payload reads back as exactly the memory
/// export `"memory"` and the function export `"f"`, both at index zero.
pub proof fn lemma_parse_export_payload()
    ensures
        parse_export_payload(export_payload()) == Some(guest_module_shape().exports),
{
    let e1 = export_entry(memory_export_name(), EXPORT_KIND_MEMORY, 0);
    let e2 = export_entry(func_export_name(), EXPORT_KIND_FUNC, 0);
    lemma_uleb_decode_encode(2, e1 + e2);
    assert(export_payload() =~= uleb(2) + (e1 + e2));
    lemma_parse_export(memory_export_name(), EXPORT_KIND_MEMORY, 0, e2);
    lemma_parse_export(func_export_name(), EXPORT_KIND_FUNC, 0, Seq::<u8>::empty());
    assert(e2 + Seq::<u8>::empty() =~= e2);
    assert(seq![
        ExportShape { name: memory_export_name(), kind: EXPORT_KIND_MEMORY, index: 0 },
        ExportShape { name: func_export_name(), kind: EXPORT_KIND_FUNC, index: 0 },
    ] =~= guest_module_shape().exports);
}

/// The emitted code section payload reads back as the one
/// fetch-and-increment body.
pub proof fn lemma_parse_code_payload()
    ensures
        parse_code_payload(code_payload()) == Some(guest_body()),
{
    lemma_uleb_decode_encode(1, uleb(guest_body().len()) + guest_body());
    assert(code_payload() =~= uleb(1) + (uleb(guest_body().len()) + guest_body()));
    lemma_uleb_decode_encode(guest_body().len(), guest_body());
}

/// Structural round trip: the emitted guest module, read back, exposes
/// exactly the declared structure — the signature `(i64) -> i64`, the
/// 64-bit indexed unshared memory of `MAX_PAGES - 1` minimum pages with no
/// maximum, the exports `"memory"` and `"f"`, and the fetch-and-increment
/// body.
pub proof fn lemma_structural_round_trip()
    ensures
        parse_module(guest_module_spec()) == Some(guest_module_shape()),
        limits_flag_is_64(guest_module_shape().mem_limits_flag),
        !limits_flag_has_max(guest_module_shape().mem_limits_flag),
        !limits_flag_shared(guest_module_shape().mem_limits_flag),
{
    let m = guest_module_spec();
    let s1 = section(TYPE_SECTION_ID, type_payload());
    let s2 = section(FUNCTION_SECTION_ID, function_payload());
    let s3 = section(MEMORY_SECTION_ID, memory_payload());
    let s4 = section(EXPORT_SECTION_ID, export_payload());
    let s5 = section(CODE_SECTION_ID, code_payload());
    assert(m.take(8) =~= magic() + version());
    assert(m.skip(8) =~= s1 + (s2 + (s3 + (s4 + s5))));
    lemma_parse_section(TYPE_SECTION_ID, type_payload(), s2 + (s3 + (s4 + s5)));
    lemma_parse_section(FUNCTION_SECTION_ID, function_payload(), s3 + (s4 + s5));
    lemma_parse_section(MEMORY_SECTION_ID, memory_payload(), s4 + s5);
    lemma_parse_section(EXPORT_SECTION_ID, export_payload(), s5);
    lemma_parse_section(CODE_SECTION_ID, code_payload(), Seq::<u8>::empty());
    assert(s5 =~= s5 + Seq::<u8>::empty());
    lemma_parse_type_payload();
    lemma_parse_function_payload();
    lemma_parse_memory_payload();
    lemma_parse_export_payload();
    lemma_parse_code_payload();
    assert(0x04u8 & 0x04 == 0x04) by (bit_vector);
    assert(0x04u8 & 0x01 != 0x01) by (bit_vector);
    assert(0x04u8 & 0x02 != 0x02) by (bit_vector);
    assert(parse_module(m) == Some(guest_module_shape()));
}

} // verus!
