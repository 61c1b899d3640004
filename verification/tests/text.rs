use dylib_mitm::mitm::{derive_all, library_ident, library_name, Derived};
use dylib_mitm::target::{Arch, Encoding, Os, TargetDescriptor};
use dylib_mitm::text::{decimal, join, prefix_before, replace_char, same_text};
use dylib_mitm::trampoline::{emit_trampolines, instruction, template, Trampoline};

#[test]
fn supported_targets_are_two() {
    assert_eq!(
        TargetDescriptor::parse("windows", "x86"),
        Some(TargetDescriptor { os: Os::Windows, arch: Arch::X86 })
    );
    assert_eq!(
        TargetDescriptor::parse("windows", "x86_64"),
        Some(TargetDescriptor { os: Os::Windows, arch: Arch::X86_64 })
    );
    for (os, arch) in [
        ("windows", "arm"),
        ("linux", "x86"),
        ("windows", ""),
        ("", "x86_64"),
        ("windows", "X86"),
        ("windows ", "x86"),
        ("x86", "windows"),
    ] {
        assert_eq!(TargetDescriptor::parse(os, arch), None);
    }
}

#[test]
fn pointer_width_selects_encoding() {
    let narrow = TargetDescriptor { os: Os::Windows, arch: Arch::X86 };
    let wide = TargetDescriptor { os: Os::Windows, arch: Arch::X86_64 };
    assert_eq!(narrow.pointer_width(), 32);
    assert_eq!(wide.pointer_width(), 64);
    assert_eq!(narrow.encoding(), Encoding::Absolute);
    assert_eq!(wide.encoding(), Encoding::IpRelative);
}

#[test]
fn instruction_jumps_through_named_slot() {
    assert_eq!(instruction(Encoding::Absolute, "__Init"), "jmpl *(__Init)");
    assert_eq!(instruction(Encoding::IpRelative, "__Init"), "jmpq *__Init(%rip)");
    assert_eq!(template(Encoding::Absolute), "jmpl *({proc})");
    assert_eq!(template(Encoding::IpRelative), "jmpq *{proc}(%rip)");
}

#[test]
fn trampoline_bears_export_name_and_reads_its_slot() {
    let t = Trampoline::emit(Encoding::Absolute, "Direct3DCreate9");
    assert_eq!(t.export, "Direct3DCreate9");
    assert_eq!(t.slot, "__Direct3DCreate9");
    assert_eq!(t.encoding, Encoding::Absolute);
    assert_eq!(t.instruction(), "jmpl *(__Direct3DCreate9)");
}

#[test]
fn one_trampoline_per_forwarded_export_in_order() {
    let wide = TargetDescriptor { os: Os::Windows, arch: Arch::X86_64 };
    let forwarded = vec!["b".to_string(), "a".to_string()];
    let trampolines = emit_trampolines(wide, &forwarded);
    assert_eq!(trampolines.len(), 2);
    assert_eq!(trampolines[0].export, "b");
    assert_eq!(trampolines[0].slot, "__b");
    assert_eq!(trampolines[1].export, "a");
    assert_eq!(trampolines[1].instruction(), "jmpq *__a(%rip)");
    assert!(emit_trampolines(wide, &Vec::new()).is_empty());
}

#[test]
fn library_name_is_stem_with_underscores() {
    assert_eq!(library_name("d3d9.dll"), "d3d9");
    assert_eq!(library_name("my-cool-lib.so.1.2"), "my_cool_lib");
    assert_eq!(library_name("noextension"), "noextension");
    assert_eq!(library_name(".hidden"), "");
    assert_eq!(library_name(""), "");
    assert_eq!(library_name("a_b-c"), "a_b_c");
}

#[test]
fn library_ident_is_upper_case_with_suffix() {
    assert_eq!(library_ident("d3d9"), "D3D9_LIB");
    assert_eq!(library_ident("my_lib"), "MY_LIB_LIB");
    assert_eq!(library_ident(""), "_LIB");
    assert_eq!(library_ident("stra\u{df}e"), "STRASSE_LIB");
}

#[test]
fn derived_names_follow_their_kind() {
    let names = vec!["a".to_string(), "B".to_string()];
    assert_eq!(derive_all(Derived::Slot, &names), vec!["__a".to_string(), "__B".to_string()]);
    assert_eq!(
        derive_all(Derived::Marker, &names),
        vec!["a_export_implementation".to_string(), "B_export_implementation".to_string()]
    );
    assert!(derive_all(Derived::Slot, &Vec::new()).is_empty());
}

#[test]
fn decimal_writes_numbers_without_leading_zeros() {
    assert_eq!(decimal(0), "0");
    assert_eq!(decimal(7), "7");
    assert_eq!(decimal(10), "10");
    assert_eq!(decimal(109), "109");
    assert_eq!(decimal(65535), "65535");
    assert_eq!(decimal(usize::MAX), usize::MAX.to_string());
}

#[test]
fn text_helpers_work_on_characters() {
    assert_eq!(join("ab", "cd"), "abcd");
    assert_eq!(join("", ""), "");
    assert!(same_text("x86", "x86"));
    assert!(!same_text("x86", "x86_64"));
    assert_eq!(prefix_before("\u{e9}t\u{e9}.dll", '.'), "\u{e9}t\u{e9}");
    assert_eq!(prefix_before("a..b", '.'), "a");
    assert_eq!(prefix_before("abc", '.'), "abc");
    assert_eq!(replace_char("a-b-\u{e9}-", '-', '_'), "a_b_\u{e9}_");
    assert_eq!(replace_char("abc", '-', '_'), "abc");
    assert_eq!(replace_char("", '-', '_'), "");
}

#[test]
fn copy_of_names_holds_the_same_names() {
    let names = vec!["Init".to_string(), String::new(), "Render".to_string()];
    assert_eq!(dylib_mitm::text::clone_names(&names), names);
    assert!(dylib_mitm::text::clone_names(&Vec::new()).is_empty());
}
