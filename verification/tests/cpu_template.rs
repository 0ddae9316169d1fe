//! CPU configs: parsing of numbers, intersection and the JSON text of the result.

use aenv_api::node_registry::cpu_template::{
    format_bitmap, intersect_kvm_capabilities, intersect_msr_modifiers, is_kvm_read_only_leaf,
    make_cpuid_leaf_key, parse_bitmap_u32, parse_bitmap_u64, parse_hex_u32, CpuConfig,
    CpuTemplateError, CpuidModifier, MsrModifier, RegisterMod,
};
use aenv_api::node_registry::cpu_template_json::{frame_config, render_config};

fn bm32(v: u32) -> String {
    format!("0b{v:032b}")
}

fn bm64(v: u64) -> String {
    format!("0b{v:064b}")
}

fn text_of(value: &serde_json::Value, field: &str) -> Option<String> {
    value.get(field)?.as_str().map(|s| s.to_string())
}

fn list_of<T>(
    value: &serde_json::Value,
    field: &str,
    item: fn(&serde_json::Value) -> Option<T>,
) -> Option<Vec<T>> {
    match value.get(field) {
        None => Some(Vec::new()),
        Some(list) => list.as_array()?.iter().map(item).collect(),
    }
}

fn register_of(value: &serde_json::Value) -> Option<RegisterMod> {
    Some(RegisterMod {
        register: text_of(value, "register")?,
        bitmap: text_of(value, "bitmap")?,
    })
}

fn cpuid_of(value: &serde_json::Value) -> Option<CpuidModifier> {
    Some(CpuidModifier {
        leaf: text_of(value, "leaf")?,
        subleaf: text_of(value, "subleaf")?,
        flags: match value.get("flags") {
            None => 0,
            Some(flags) => flags.as_i64()?,
        },
        modifiers: list_of(value, "modifiers", register_of)?,
    })
}

fn msr_of(value: &serde_json::Value) -> Option<MsrModifier> {
    Some(MsrModifier {
        addr: text_of(value, "addr")?,
        bitmap: text_of(value, "bitmap")?,
    })
}

fn parsed(json: &str) -> Option<CpuConfig> {
    let value: serde_json::Value = serde_json::from_str(json).ok()?;
    value.as_object()?;
    Some(CpuConfig {
        kvm_capabilities: list_of(&value, "kvm_capabilities", |v| {
            v.as_str().map(|s| s.to_string())
        })?,
        cpuid_modifiers: list_of(&value, "cpuid_modifiers", cpuid_of)?,
        msr_modifiers: list_of(&value, "msr_modifiers", msr_of)?,
    })
}

fn intersect_cpu_configs(jsons: &[String]) -> Result<String, CpuTemplateError> {
    let configs: Vec<Option<CpuConfig>> = jsons.iter().map(|json| parsed(json)).collect();
    aenv_api::node_registry::cpu_template::intersect_cpu_configs(&configs)
}

fn build_config(
    kvm_caps: Vec<String>,
    cpuid_entries: Vec<CpuidModifier>,
    msr_entries: Vec<MsrModifier>,
) -> String {
    render_config(&CpuConfig {
        kvm_capabilities: kvm_caps,
        cpuid_modifiers: cpuid_entries,
        msr_modifiers: msr_entries,
    })
}

fn cpuid(leaf: &str, subleaf: &str, modifiers: Vec<RegisterMod>) -> CpuidModifier {
    CpuidModifier {
        leaf: leaf.to_string(),
        subleaf: subleaf.to_string(),
        flags: 0,
        modifiers,
    }
}

fn reg(register: &str, bitmap: String) -> RegisterMod {
    RegisterMod {
        register: register.to_string(),
        bitmap,
    }
}

fn msr(addr: &str, bitmap: String) -> MsrModifier {
    MsrModifier {
        addr: addr.to_string(),
        bitmap,
    }
}

fn parsed_result(jsons: &[String]) -> CpuConfig {
    let out = intersect_cpu_configs(jsons).expect("the configs intersect");
    parsed(&out).expect("the result is a config")
}

#[test]
fn empty_input_is_empty_string() {
    let out = intersect_cpu_configs(&[]).expect("unexpected error");
    assert_eq!(out, "");
}

#[test]
fn single_config_drops_read_only_leaf() {
    let safe = cpuid("0x1", "0x0", vec![reg("eax", bm32(1))]);
    let input = build_config(
        vec![],
        vec![safe.clone(), cpuid("0xb", "0x1", vec![reg("eax", bm32(2))])],
        vec![],
    );
    let want = build_config(vec![], vec![safe], vec![]);
    let out = intersect_cpu_configs(&[input]).expect("unexpected error");
    assert_eq!(out, want, "single config");
}

#[test]
fn cpuid_bitmap_and() {
    let mod_a = cpuid("0x1", "0x0", vec![reg("eax", bm32(0xFFFF_FFFF))]);
    let mod_b = cpuid("0x1", "0x0", vec![reg("eax", bm32(0x0F0F_0F0F))]);
    let cfg_a = build_config(vec![], vec![mod_a], vec![]);
    let cfg_b = build_config(vec![], vec![mod_b], vec![]);

    let result = parsed_result(&[cfg_a, cfg_b]);

    assert_eq!(result.cpuid_modifiers.len(), 1);
    assert_eq!(
        result.cpuid_modifiers[0].modifiers[0].bitmap,
        bm32(0x0F0F_0F0F)
    );
}

#[test]
fn cpuid_extra_leaf_dropped() {
    let leaf1 = cpuid("0x1", "0x0", vec![reg("eax", bm32(0xFFFF))]);
    let leaf7 = cpuid("0x7", "0x0", vec![reg("ebx", bm32(0xABCD))]);
    let cfg_a = build_config(vec![], vec![leaf1.clone(), leaf7], vec![]);
    let cfg_b = build_config(vec![], vec![leaf1], vec![]);

    let result = parsed_result(&[cfg_a, cfg_b]);

    assert!(!result.cpuid_modifiers.iter().any(|m| m.leaf == "0x7"));
    assert_eq!(result.cpuid_modifiers.len(), 1);
}

#[test]
fn cpuid_extra_register_dropped() {
    let mod_a = cpuid(
        "0x1",
        "0x0",
        vec![reg("eax", bm32(0xF)), reg("ecx", bm32(0xF))],
    );
    let mod_b = cpuid("0x1", "0x0", vec![reg("eax", bm32(0x3))]);
    let cfg_a = build_config(vec![], vec![mod_a], vec![]);
    let cfg_b = build_config(vec![], vec![mod_b], vec![]);

    let result = parsed_result(&[cfg_a, cfg_b]);

    assert_eq!(result.cpuid_modifiers.len(), 1);
    let regs = &result.cpuid_modifiers[0].modifiers;
    assert_eq!(regs.len(), 1);
    assert_eq!(regs[0].register, "eax");
    assert_eq!(regs[0].bitmap, bm32(0x3));
}

#[test]
fn msr_bitmap_and() {
    let msr_a = msr("0x10a", bm64(0xFFFF_FFFF_FFFF_FFFF));
    let msr_b = msr("0x10a", bm64(0x0000_0000_0000_00FF));
    let cfg_a = build_config(vec![], vec![], vec![msr_a]);
    let cfg_b = build_config(vec![], vec![], vec![msr_b]);

    let result = parsed_result(&[cfg_a, cfg_b]);

    assert_eq!(result.msr_modifiers.len(), 1);
    assert_eq!(result.msr_modifiers[0].bitmap, bm64(0x0000_0000_0000_00FF));
}

#[test]
fn msr_extra_addr_dropped() {
    let common = msr("0x10a", bm64(0xFF));
    let extra = msr("0x10b", bm64(0xFF));
    let cfg_a = build_config(vec![], vec![], vec![common.clone(), extra]);
    let cfg_b = build_config(vec![], vec![], vec![common]);

    let result = parsed_result(&[cfg_a, cfg_b]);

    assert!(!result.msr_modifiers.iter().any(|m| m.addr == "0x10b"));
    assert_eq!(result.msr_modifiers.len(), 1);
}

#[test]
fn kvm_capabilities_intersect() {
    let cfg_a = build_config(
        vec!["cap-a".to_string(), "cap-b".to_string()],
        vec![],
        vec![],
    );
    let cfg_b = build_config(
        vec!["cap-b".to_string(), "cap-c".to_string()],
        vec![],
        vec![],
    );

    let result = parsed_result(&[cfg_a, cfg_b]);

    assert_eq!(result.kvm_capabilities, vec!["cap-b".to_string()]);
}

#[test]
fn three_configs_and_across_all() {
    let build = |v: u32| cpuid("0x1", "0x0", vec![reg("eax", bm32(v))]);
    let cfg_a = build_config(vec![], vec![build(0xFF)], vec![]);
    let cfg_b = build_config(vec![], vec![build(0x0F)], vec![]);
    let cfg_c = build_config(vec![], vec![build(0x03)], vec![]);

    let result = parsed_result(&[cfg_a, cfg_b, cfg_c]);

    assert_eq!(result.cpuid_modifiers[0].modifiers[0].bitmap, bm32(0x03));
}

#[test]
fn hex_normalization_treats_0x01_and_0x1_as_same_leaf() {
    let mod_a = cpuid("0x01", "0x00", vec![reg("eax", bm32(0xFF))]);
    let mod_b = cpuid("0x1", "0x0", vec![reg("eax", bm32(0x0F))]);
    let cfg_a = build_config(vec![], vec![mod_a], vec![]);
    let cfg_b = build_config(vec![], vec![mod_b], vec![]);

    let result = parsed_result(&[cfg_a, cfg_b]);

    assert_eq!(result.cpuid_modifiers.len(), 1, "hex-normalized leaf");
    assert_eq!(result.cpuid_modifiers[0].modifiers[0].bitmap, bm32(0x0F));
}

#[test]
fn identical_configs_are_unchanged() {
    let modifier = cpuid("0x1", "0x0", vec![reg("eax", bm32(0xABCD_1234))]);
    let cfg = build_config(vec![], vec![modifier], vec![]);

    let result = parsed_result(&[cfg.clone(), cfg]);

    assert_eq!(
        result.cpuid_modifiers[0].modifiers[0].bitmap,
        bm32(0xABCD_1234)
    );
}

#[test]
fn intersecting_a_result_again_gives_the_same_text() {
    let a = build_config(
        vec!["cap-b".to_string(), "cap-a".to_string()],
        vec![
            cpuid("0x01", "0", vec![reg("eax", bm32(0b1110)), reg("ebx", bm32(0b0110))]),
            cpuid("0x7", "0x0", vec![reg("ecx", bm32(0b1))]),
        ],
        vec![msr("0x10", bm64(0b1011)), msr("0x11", bm64(0b1))],
    );
    let b = build_config(
        vec!["cap-a".to_string(), "cap-c".to_string(), "cap-b".to_string()],
        vec![
            cpuid("0x1", "0x0", vec![reg("eax", "0b0111".to_string())]),
            cpuid("0x7", "0x0", vec![reg("edx", bm32(0b1))]),
        ],
        vec![msr("0x10", bm64(0b1110))],
    );
    let r = intersect_cpu_configs(&[a.clone(), b.clone()]).expect("the configs intersect");
    let config = parsed(&r).expect("a config");
    assert_eq!(config.cpuid_modifiers.len(), 1);
    assert_eq!(config.cpuid_modifiers[0].modifiers[0].bitmap, bm32(0b0110));
    assert_eq!(config.msr_modifiers[0].bitmap, bm64(0b1010));
    assert_eq!(intersect_cpu_configs(&[r.clone()]).expect("alone"), r);
    assert_eq!(intersect_cpu_configs(&[a, b, r.clone()]).expect("as a last one"), r);
}

#[test]
fn invalid_json_is_an_error() {
    let err = intersect_cpu_configs(&["{}".to_string(), "not-json".to_string()]);
    assert!(err.is_err(), "expected error for invalid JSON");
}

#[test]
fn invalid_bitmap_is_an_error() {
    let bad = build_config(
        vec![],
        vec![cpuid("0x1", "0x0", vec![reg("eax", "0bXXXX".to_string())])],
        vec![],
    );
    let good = build_config(
        vec![],
        vec![cpuid("0x1", "0x0", vec![reg("eax", bm32(0xFF))])],
        vec![],
    );

    let err = intersect_cpu_configs(&[good, bad]);
    assert!(err.is_err(), "expected error for invalid bitmap string");
}

#[test]
fn empty_slices_serialize_as_arrays_not_null() {
    let cfg_a = build_config(vec![], vec![], vec![]);
    let cfg_b = build_config(vec![], vec![], vec![]);

    let out = intersect_cpu_configs(&[cfg_a, cfg_b]).expect("unexpected error");
    let raw: serde_json::Value = serde_json::from_str(&out).expect("unmarshal");
    for field in ["kvm_capabilities", "cpuid_modifiers", "msr_modifiers"] {
        assert!(
            raw.get(field).is_some_and(|v| v.is_array()),
            "{field} did not serialize as an array"
        );
    }
}

#[test]
fn intersection_never_exceeds_the_narrowest_config() {
    let wide = build_config(
        vec!["cap-a".to_string()],
        vec![cpuid("0x1", "0x0", vec![reg("eax", bm32(0xFFFF_FFFF))])],
        vec![msr("0x10a", bm64(0xFFFF_FFFF_FFFF_FFFF))],
    );
    let narrow = build_config(vec![], vec![], vec![]);

    let result = parsed_result(&[wide, narrow]);

    assert!(result.kvm_capabilities.is_empty());
    assert!(result.cpuid_modifiers.is_empty());
    assert!(result.msr_modifiers.is_empty());
}

#[test]
fn matches_the_real_go_implementation_byte_for_byte() {
    let single_full = r#"{"kvm_capabilities":["cap.a","cap.b"],"cpuid_modifiers":[{"leaf":"0x1","subleaf":"0x0","flags":0,"modifiers":[{"register":"eax","bitmap":"0b00000000000000000000000000001111"}]}],"msr_modifiers":[{"addr":"0x10","bitmap":"0b0000000000000000000000000000000000000000000000000000000011111111"}]}"#;
    assert_eq!(
        intersect_cpu_configs(&[single_full.to_string()]).expect("one config"),
        single_full,
        "single-config intersection"
    );

    let two_a = r#"{"kvm_capabilities":["cap.a","cap.b","cap.c"],"cpuid_modifiers":[{"leaf":"0x1","subleaf":"0x0","flags":0,"modifiers":[{"register":"eax","bitmap":"0b00000000000000000000000000001111"},{"register":"ebx","bitmap":"0b00000000000000000000000011110000"}]},{"leaf":"0x7","subleaf":"0x0","flags":0,"modifiers":[{"register":"ecx","bitmap":"0b00000000000000000000000000000001"}]}],"msr_modifiers":[{"addr":"0x10","bitmap":"0b0000000000000000000000000000000000000000000000000000000011111111"},{"addr":"0x20","bitmap":"0b0000000000000000000000000000000000000000000000000000000000001111"}]}"#;
    let two_b = r#"{"kvm_capabilities":["cap.a","cap.c","cap.d"],"cpuid_modifiers":[{"leaf":"0x1","subleaf":"0x0","flags":0,"modifiers":[{"register":"eax","bitmap":"0b00000000000000000000000000000101"},{"register":"ebx","bitmap":"0b00000000000000000000000010100000"}]}],"msr_modifiers":[{"addr":"0x10","bitmap":"0b0000000000000000000000000000000000000000000000000000000010101010"}]}"#;
    let two_want = r#"{"kvm_capabilities":["cap.a","cap.c"],"cpuid_modifiers":[{"leaf":"0x1","subleaf":"0x0","flags":0,"modifiers":[{"register":"eax","bitmap":"0b00000000000000000000000000000101"},{"register":"ebx","bitmap":"0b00000000000000000000000010100000"}]}],"msr_modifiers":[{"addr":"0x10","bitmap":"0b0000000000000000000000000000000000000000000000000000000010101010"}]}"#;
    assert_eq!(
        intersect_cpu_configs(&[two_a.to_string(), two_b.to_string()])
            .expect("two configs"),
        two_want,
        "two-config intersection"
    );

    let three_a = r#"{"kvm_capabilities":["cap.x"],"cpuid_modifiers":[{"leaf":"0xb","subleaf":"0x0","flags":0,"modifiers":[{"register":"eax","bitmap":"0b00000000000000000000000000001111"}]},{"leaf":"0x1","subleaf":"0x0","flags":1,"modifiers":[{"register":"eax","bitmap":"0b00000000000000000000000000000011"}]}],"msr_modifiers":[]}"#;
    let three_b = r#"{"kvm_capabilities":["cap.x"],"cpuid_modifiers":[{"leaf":"0xb","subleaf":"0x0","flags":0,"modifiers":[{"register":"eax","bitmap":"0b00000000000000000000000000000111"}]},{"leaf":"0x1","subleaf":"0x0","flags":1,"modifiers":[{"register":"eax","bitmap":"0b00000000000000000000000000000110"}]}],"msr_modifiers":[]}"#;
    let three_c = r#"{"kvm_capabilities":["cap.x","cap.y"],"cpuid_modifiers":[{"leaf":"0xb","subleaf":"0x0","flags":0,"modifiers":[{"register":"eax","bitmap":"0b00000000000000000000000000000011"}]},{"leaf":"0x1","subleaf":"0x0","flags":1,"modifiers":[{"register":"eax","bitmap":"0b00000000000000000000000000000111"}]}],"msr_modifiers":[]}"#;
    let three_want = r#"{"kvm_capabilities":["cap.x"],"cpuid_modifiers":[{"leaf":"0x1","subleaf":"0x0","flags":1,"modifiers":[{"register":"eax","bitmap":"0b00000000000000000000000000000010"}]}],"msr_modifiers":[]}"#;
    assert_eq!(
        intersect_cpu_configs(&[
            three_a.to_string(),
            three_b.to_string(),
            three_c.to_string()
        ])
        .expect("three configs"),
        three_want,
        "three-config intersection (with the read-only leaf 0xb dropped)"
    );
}

fn config(
    capabilities: &[&str],
    leaves: Vec<CpuidModifier>,
    msrs: Vec<MsrModifier>,
) -> CpuConfig {
    CpuConfig {
        kvm_capabilities: capabilities.iter().map(|c| c.to_string()).collect(),
        cpuid_modifiers: leaves,
        msr_modifiers: msrs,
    }
}

#[test]
fn hex_numbers_parse_with_and_without_prefix() {
    assert_eq!(parse_hex_u32("0x10a"), Some(0x10a));
    assert_eq!(parse_hex_u32("0X1F"), Some(0x1f));
    assert_eq!(parse_hex_u32("ff"), Some(0xff));
    assert_eq!(parse_hex_u32("FFFFFFFF"), Some(u32::MAX));
    assert_eq!(parse_hex_u32("0x+1"), Some(1));
    assert_eq!(parse_hex_u32("100000000"), None);
    assert_eq!(parse_hex_u32(""), None);
    assert_eq!(parse_hex_u32("0x"), None);
    assert_eq!(parse_hex_u32("+"), None);
    assert_eq!(parse_hex_u32("-1"), None);
    assert_eq!(parse_hex_u32("0xg"), None);
    assert_eq!(parse_hex_u32(" 1"), None);
}

#[test]
fn bitmaps_parse_only_binary_digits() {
    assert_eq!(parse_bitmap_u32("0b101"), Some(5));
    assert_eq!(parse_bitmap_u32("101"), Some(5));
    assert_eq!(parse_bitmap_u32("0B101"), None);
    assert_eq!(parse_bitmap_u32("0b"), None);
    assert_eq!(parse_bitmap_u32("2"), None);
    assert_eq!(parse_bitmap_u32(&bm32(u32::MAX)), Some(u32::MAX));
    assert_eq!(parse_bitmap_u32(&format!("0b1{:032b}", 0)), None);
    assert_eq!(parse_bitmap_u64(&bm64(u64::MAX)), Some(u64::MAX));
    assert_eq!(parse_bitmap_u64(&format!("0b{:080b}", 6)), Some(6));
    assert_eq!(parse_bitmap_u64(&format!("0b1{:064b}", 0)), None);
}

#[test]
fn bitmaps_are_formatted_at_least_as_wide_as_asked() {
    assert_eq!(format_bitmap(0, 0), "0b0");
    assert_eq!(format_bitmap(5, 8), "0b00000101");
    assert_eq!(format_bitmap(0x1ff, 4), "0b111111111");
    assert_eq!(format_bitmap(u64::MAX, 64), bm64(u64::MAX));
    for v in [0u64, 1, 6, 0xabcd_1234, u64::MAX] {
        assert_eq!(parse_bitmap_u64(&format_bitmap(v, 32)), Some(v));
    }
}

#[test]
fn leaf_keys_ignore_spelling_and_name_what_is_wrong() {
    let a = make_cpuid_leaf_key(&cpuid("0x0b", "00", vec![]), 0, 0).expect("a key");
    let b = make_cpuid_leaf_key(&cpuid("B", "0X0", vec![]), 1, 2).expect("a key");
    assert_eq!(a, b);
    assert!(is_kvm_read_only_leaf(a.leaf));
    assert!(!is_kvm_read_only_leaf(0xa));
    assert_eq!(
        make_cpuid_leaf_key(&cpuid("x", "0", vec![]), 3, 4),
        Err(CpuTemplateError::CpuidLeaf { config: 3, modifier: 4 })
    );
    assert_eq!(
        make_cpuid_leaf_key(&cpuid("1", "x", vec![]), 3, 4),
        Err(CpuTemplateError::CpuidSubleaf { config: 3, modifier: 4 })
    );
}

#[test]
fn every_fault_is_named_by_its_place() {
    let good = config(&[], vec![cpuid("0x1", "0x0", vec![reg("eax", bm32(1))])], vec![]);
    let fault = |bad: Option<CpuConfig>| {
        let configs = vec![Some(good.clone()), bad];
        let err = aenv_api::node_registry::cpu_template::intersect_cpu_configs(&configs)
            .expect_err("a fault");
        (err, err.message(&configs).expect("the place exists"))
    };

    assert_eq!(
        fault(None),
        (CpuTemplateError::ParseConfig { config: 1 }, "parse config 1".to_string())
    );
    assert_eq!(
        fault(Some(config(&[], vec![cpuid("q", "0x0", vec![])], vec![]))),
        (
            CpuTemplateError::CpuidLeaf { config: 1, modifier: 0 },
            "config 1 cpuid q/0x0".to_string()
        )
    );
    assert_eq!(
        fault(Some(config(&[], vec![cpuid("0x1", "q", vec![])], vec![]))),
        (
            CpuTemplateError::CpuidSubleaf { config: 1, modifier: 0 },
            "config 1 cpuid 0x1/q".to_string()
        )
    );
    assert_eq!(
        fault(Some(config(
            &[],
            vec![cpuid("0x1", "0x0", vec![reg("eax", bm32(1)), reg("ebx", "0bX".to_string())])],
            vec![],
        ))),
        (
            CpuTemplateError::CpuidBitmap { config: 1, modifier: 0, register: 1 },
            "config 1 cpuid 0x1 ebx bitmap".to_string()
        )
    );
    assert_eq!(
        fault(Some(config(&[], vec![], vec![msr("zz", bm64(1))]))),
        (
            CpuTemplateError::MsrAddr { config: 1, modifier: 0 },
            "config 1 msr addr \"zz\"".to_string()
        )
    );
    assert_eq!(
        fault(Some(config(&[], vec![], vec![msr("0x10", "0b".to_string())]))),
        (
            CpuTemplateError::MsrBitmap { config: 1, modifier: 0 },
            "config 1 msr 0x10 bitmap".to_string()
        )
    );
}

#[test]
fn a_fault_in_a_message_without_its_configs_has_no_text() {
    let err = CpuTemplateError::MsrAddr { config: 0, modifier: 0 };
    assert_eq!(err.message(&vec![]), None);
}

#[test]
fn repeated_entries_keep_the_first_spelling_and_the_last_bits() {
    let repeated = config(
        &[],
        vec![cpuid(
            "0x1",
            "0x0",
            vec![reg("eax", bm32(0xff)), reg("eax", bm32(0x0f))],
        )],
        vec![msr("0x10", bm64(0xff)), msr("0x010", bm64(0x3))],
    );
    let result = aenv_api::node_registry::cpu_template::intersect_parsed_configs(&vec![Some(
        repeated,
    )])
    .expect("the config parses")
    .expect("there is a config");
    assert_eq!(result.cpuid_modifiers.len(), 1);
    assert_eq!(result.cpuid_modifiers[0].modifiers.len(), 1);
    assert_eq!(result.cpuid_modifiers[0].modifiers[0].bitmap, bm32(0x0f));
    assert_eq!(result.msr_modifiers.len(), 1);
    assert_eq!(result.msr_modifiers[0].addr, "0x10");
    assert_eq!(result.msr_modifiers[0].bitmap, bm64(0x3));
}

#[test]
fn capabilities_are_sorted_and_listed_once() {
    let a = config(&["zeta", "alpha", "alpha", "mid"], vec![], vec![]);
    let b = config(&["mid", "alpha", "zeta"], vec![], vec![]);
    assert_eq!(
        intersect_kvm_capabilities(&vec![a, b]),
        vec!["alpha".to_string(), "mid".to_string(), "zeta".to_string()]
    );
    assert!(intersect_kvm_capabilities(&vec![]).is_empty());
}

#[test]
fn the_order_of_the_other_configs_does_not_matter() {
    let make = |v: u64| config(&[], vec![], vec![msr("0x10", bm64(v))]);
    let one = intersect_msr_modifiers(&vec![make(0xff), make(0x3c), make(0x18)]).expect("bits");
    let two = intersect_msr_modifiers(&vec![make(0xff), make(0x18), make(0x3c)]).expect("bits");
    assert_eq!(one[0].bitmap, two[0].bitmap);
    assert_eq!(one[0].bitmap, bm64(0x18));
}

#[test]
fn texts_are_escaped_as_json_strings() {
    let odd = config(&["a\"b\n"], vec![], vec![]);
    let text = render_config(&odd);
    assert_eq!(
        text,
        "{\"kvm_capabilities\":[\"a\\\"b\\n\"],\"cpuid_modifiers\":[],\"msr_modifiers\":[]}"
    );
    assert_eq!(parsed(&text).expect("a config").kvm_capabilities, odd.kvm_capabilities);
}

#[test]
fn control_characters_are_escaped_by_letter_or_number() {
    let text = render_config(&config(&["\u{8}\u{c}\r\t\u{1}\u{1f}\\\u{7f}é"], vec![], vec![]));
    assert!(
        text.contains("[\"\\b\\f\\r\\t\\u0001\\u001f\\\\\u{7f}é\"]"),
        "{text}"
    );
}

#[test]
fn framing_takes_texts_as_they_are() {
    let mut leaf = cpuid("1", "2", vec![reg("r", "b".to_string()), reg("s", "c".to_string())]);
    leaf.flags = -7;
    let framed = frame_config(&config(&["x", "y"], vec![leaf], vec![msr("a", "b".to_string())]));
    assert_eq!(
        framed,
        "{\"kvm_capabilities\":[x,y],\"cpuid_modifiers\":[{\"leaf\":1,\"subleaf\":2,\"flags\":-7,\
         \"modifiers\":[{\"register\":r,\"bitmap\":b},{\"register\":s,\"bitmap\":c}]}],\
         \"msr_modifiers\":[{\"addr\":a,\"bitmap\":b}]}"
    );
}
