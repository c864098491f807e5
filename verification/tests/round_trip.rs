use pseudo_memory::builder::build_guest_module;
use pseudo_memory::region::MAX_PAGES;

use wasm_encoder::{
    CodeSection, ExportKind, ExportSection, Function, FunctionSection, Instruction, MemArg,
    MemorySection, MemoryType, Module, TypeSection, ValType,
};

/// The same module, produced by an independent encoder.
fn encode_with_wasm_encoder() -> Vec<u8> {
    let mut module = Module::new();

    let mut types = TypeSection::new();
    types.ty().function(vec![ValType::I64], vec![ValType::I64]);
    module.section(&types);

    let mut functions = FunctionSection::new();
    functions.function(0);
    module.section(&functions);

    let mut memories = MemorySection::new();
    memories.memory(MemoryType {
        minimum: MAX_PAGES - 1,
        maximum: None,
        memory64: true,
        shared: false,
        page_size_log2: None,
    });
    module.section(&memories);

    let mut exports = ExportSection::new();
    exports.export("memory", ExportKind::Memory, 0);
    exports.export("f", ExportKind::Func, 0);
    module.section(&exports);

    let mut codes = CodeSection::new();
    let mut f = Function::new(vec![]);
    f.instruction(&Instruction::LocalGet(0));
    f.instruction(&Instruction::LocalGet(0));
    f.instruction(&Instruction::I64Load(MemArg {
        align: 3,
        offset: 0,
        memory_index: 0,
    }));
    f.instruction(&Instruction::LocalTee(0));
    f.instruction(&Instruction::I64Const(1));
    f.instruction(&Instruction::I64Add);
    f.instruction(&Instruction::I64Store(MemArg {
        align: 3,
        offset: 0,
        memory_index: 0,
    }));
    f.instruction(&Instruction::LocalGet(0));
    f.instruction(&Instruction::End);
    codes.function(&f);
    module.section(&codes);

    module.finish()
}

#[test]
fn module_bytes_match_an_independent_encoder() {
    assert_eq!(build_guest_module(), encode_with_wasm_encoder());
}

#[test]
fn parsed_module_exposes_exactly_the_declared_structure() {
    let mut config = wasmtime::Config::new();
    config.wasm_memory64(true);
    config.wasm_multi_memory(true);
    let engine = wasmtime::Engine::new(&config).unwrap();
    let module = wasmtime::Module::new(&engine, build_guest_module()).unwrap();

    let exports: Vec<_> = module.exports().collect();
    assert_eq!(exports.len(), 2);

    let memory_export = exports.iter().find(|e| e.name() == "memory").unwrap();
    let memory_type = memory_export.ty().memory().cloned().unwrap();
    assert!(memory_type.is_64());
    assert!(!memory_type.is_shared());
    assert_eq!(memory_type.minimum(), MAX_PAGES - 1);
    assert_eq!(memory_type.maximum(), None);

    let func_export = exports.iter().find(|e| e.name() == "f").unwrap();
    let func_type = func_export.ty().func().cloned().unwrap();
    let params: Vec<_> = func_type.params().collect();
    let results: Vec<_> = func_type.results().collect();
    assert_eq!(params.len(), 1);
    assert!(params[0].is_i64());
    assert_eq!(results.len(), 1);
    assert!(results[0].is_i64());
}
