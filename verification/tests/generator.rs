use wasi_libc_trampoline_bindgen::abi::AbiVariant;
use wasi_libc_trampoline_bindgen::emit::generate;
use wasi_libc_trampoline_bindgen::types::{Document, InterfaceFunc, Module, WasmType};

const HEADER: &str = "// This file is automatically generated, DO NOT EDIT\n//\n// To regenerate this file run the `crates/wasi-libc-trampoline-bindgen` command\n// This file is written in C to add `__attribute__((weak))` to the functions so\n// that they won't be linked if the user doesn't use those WASI functions.\n\n#include <stdint.h>\n\n";

fn fd_write_doc(module_name: &str) -> Document {
    Document {
        modules: vec![Module {
            name: module_name.to_string(),
            funcs: vec![InterfaceFunc {
                name: "fd_write".to_string(),
                params: vec![WasmType::I32, WasmType::I32, WasmType::I32, WasmType::I32],
                results: vec![WasmType::I32],
            }],
        }],
    }
}

fn allow_fd_write() -> Vec<String> {
    vec!["fd_write".to_string()]
}

#[test]
fn latest_variant_full_output() {
    let doc = fd_write_doc("wasi_snapshot_preview1");
    let out = generate(&doc, AbiVariant::Latest, &allow_fd_write());
    let expected = format!(
        "{}__attribute__((weak))\n\
         int32_t __imported_wasi_snapshot_preview1_fd_write(int32_t arg0, int32_t arg1, int32_t arg2, int32_t arg3) {{\n  \
         extern int32_t wasi_vfs_wasi_snapshot_preview1_fd_write(int32_t arg0, int32_t arg1, int32_t arg2, int32_t arg3);\n  \
         return wasi_vfs_wasi_snapshot_preview1_fd_write(arg0, arg1, arg2, arg3);\n\
         }}\n\n\n",
        HEADER
    );
    assert_eq!(out, expected);
}

#[test]
fn legacy_variant_full_output() {
    let doc = fd_write_doc("wasi_snapshot_preview1");
    let out = generate(&doc, AbiVariant::Legacy, &allow_fd_write());
    let expected = format!(
        "{}__attribute__((weak))\n\
         int32_t __wasi_fd_write(int32_t arg0, int32_t arg1, int32_t arg2, int32_t arg3) {{\n  \
         extern int32_t wasi_vfs_wasi_snapshot_preview1_fd_write(int32_t arg0, int32_t arg1, int32_t arg2, int32_t arg3);\n  \
         return wasi_vfs_wasi_snapshot_preview1_fd_write(arg0, arg1, arg2, arg3);\n\
         }}\n\n\n",
        HEADER
    );
    assert_eq!(out, expected);
}

#[test]
fn legacy_name_has_no_module_name() {
    let out_a = generate(&fd_write_doc("wasi_snapshot_preview1"), AbiVariant::Legacy, &allow_fd_write());
    let out_b = generate(&fd_write_doc("wasi_unstable"), AbiVariant::Legacy, &allow_fd_write());
    assert!(out_a.contains("__wasi_fd_write"));
    assert!(!out_a.contains("__wasi_wasi_snapshot_preview1"));
    // Only the trampoline name carries the module name, so the external
    // definitions agree across modules.
    assert!(out_b.contains("__wasi_fd_write"));
}

#[test]
fn trampoline_name_same_across_variants() {
    let doc = fd_write_doc("wasi_snapshot_preview1");
    let latest = generate(&doc, AbiVariant::Latest, &allow_fd_write());
    let legacy = generate(&doc, AbiVariant::Legacy, &allow_fd_write());
    let tramp = "wasi_vfs_wasi_snapshot_preview1_fd_write";
    assert!(latest.contains(tramp));
    assert!(legacy.contains(tramp));
}

#[test]
fn generation_is_deterministic() {
    let doc = fd_write_doc("wasi_snapshot_preview1");
    let first = generate(&doc, AbiVariant::Latest, &allow_fd_write());
    let second = generate(&doc, AbiVariant::Latest, &allow_fd_write());
    assert_eq!(first, second);
    let first_legacy = generate(&doc, AbiVariant::Legacy, &allow_fd_write());
    let second_legacy = generate(&doc, AbiVariant::Legacy, &allow_fd_write());
    assert_eq!(first_legacy, second_legacy);
}

#[test]
fn unlisted_function_emits_nothing() {
    let doc = Document {
        modules: vec![Module {
            name: "wasi_snapshot_preview1".to_string(),
            funcs: vec![InterfaceFunc {
                name: "sock_accept".to_string(),
                params: vec![WasmType::I32, WasmType::I32],
                results: vec![WasmType::I32],
            }],
        }],
    };
    for variant in [AbiVariant::Latest, AbiVariant::Legacy] {
        let out = generate(&doc, variant, &allow_fd_write());
        // The header and the module's trailing blank line are all that is left.
        assert_eq!(out, format!("{}\n", HEADER));
        assert!(!out.contains("sock_accept"));
    }
}

#[test]
fn mixed_module_keeps_only_listed_functions() {
    let doc = Document {
        modules: vec![Module {
            name: "wasi_snapshot_preview1".to_string(),
            funcs: vec![
                InterfaceFunc {
                    name: "sock_accept".to_string(),
                    params: vec![WasmType::I32],
                    results: vec![WasmType::I32],
                },
                InterfaceFunc {
                    name: "fd_write".to_string(),
                    params: vec![WasmType::I32, WasmType::I32, WasmType::I32, WasmType::I32],
                    results: vec![WasmType::I32],
                },
                InterfaceFunc {
                    name: "fd_close".to_string(),
                    params: vec![WasmType::I32],
                    results: vec![WasmType::I32],
                },
            ],
        }],
    };
    let allow = vec!["fd_write".to_string(), "fd_close".to_string()];
    let out = generate(&doc, AbiVariant::Latest, &allow);
    assert!(!out.contains("sock_accept"));
    assert!(out.contains("__imported_wasi_snapshot_preview1_fd_write"));
    assert!(out.contains("__imported_wasi_snapshot_preview1_fd_close"));
    // fd_write is declared first, so its stub comes first.
    let w = out.find("fd_write").unwrap();
    let c = out.find("fd_close").unwrap();
    assert!(w < c);
}

#[test]
fn module_and_function_names_are_snake_cased() {
    let doc = Document {
        modules: vec![Module {
            name: "WasiSnapshotPreview1".to_string(),
            funcs: vec![InterfaceFunc {
                name: "FdWrite".to_string(),
                params: vec![WasmType::I32],
                results: vec![WasmType::I32],
            }],
        }],
    };
    let allow = vec!["FdWrite".to_string()];
    let out = generate(&doc, AbiVariant::Latest, &allow);
    assert!(out.contains("__imported_wasi_snapshot_preview1_fd_write"));
    assert!(out.contains("wasi_vfs_wasi_snapshot_preview1_fd_write"));
    assert!(!out.contains("FdWrite"));
}

#[test]
fn zero_parameter_function_renders_empty_list() {
    let doc = Document {
        modules: vec![Module {
            name: "wasi_snapshot_preview1".to_string(),
            funcs: vec![InterfaceFunc {
                name: "sched_yield".to_string(),
                params: vec![],
                results: vec![WasmType::I32],
            }],
        }],
    };
    let allow = vec!["sched_yield".to_string()];
    let out = generate(&doc, AbiVariant::Legacy, &allow);
    assert!(out.contains("int32_t __wasi_sched_yield() {\n"));
    assert!(out.contains("  return wasi_vfs_wasi_snapshot_preview1_sched_yield();\n"));
}

#[test]
fn argument_indexes_reach_two_digits() {
    let doc = Document {
        modules: vec![Module {
            name: "m".to_string(),
            funcs: vec![InterfaceFunc {
                name: "path_open".to_string(),
                params: vec![WasmType::I32; 11],
                results: vec![WasmType::I32],
            }],
        }],
    };
    let allow = vec!["path_open".to_string()];
    let out = generate(&doc, AbiVariant::Latest, &allow);
    assert!(out.contains("int32_t arg9, int32_t arg10)"));
    assert!(out.contains("arg8, arg9, arg10);"));
}

#[test]
fn every_wasm_type_spelling_is_rendered() {
    let doc = Document {
        modules: vec![Module {
            name: "m".to_string(),
            funcs: vec![InterfaceFunc {
                name: "clock_time_get".to_string(),
                params: vec![WasmType::I32, WasmType::I64, WasmType::F32, WasmType::F64],
                results: vec![WasmType::I64],
            }],
        }],
    };
    let allow = vec!["clock_time_get".to_string()];
    let out = generate(&doc, AbiVariant::Latest, &allow);
    assert!(out.contains(
        "int64_t __imported_m_clock_time_get(int32_t arg0, int64_t arg1, float arg2, double arg3)"
    ));
}

#[test]
fn empty_document_emits_header_only() {
    let doc = Document { modules: vec![] };
    let out = generate(&doc, AbiVariant::Latest, &allow_fd_write());
    assert_eq!(out, HEADER);
}
