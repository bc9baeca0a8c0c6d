use langswitch::layout::{get_current_layout_name, hkl_to_langid, langid_to_name, switch_to_next_layout};

const EN_US: usize = 0x0409_0409;
const RU_RU: usize = 0x0419_0419;
const DE_DE: usize = 0x0407_0407;
const EN_GB: usize = 0x0809_0809;

#[test]
fn names_of_known_languages() {
    let cases: [(u16, &str); 12] = [
        (0x0409, "EN"),
        (0x0419, "RU"),
        (0x0804, "ZH"),
        (0x0407, "DE"),
        (0x040C, "FR"),
        (0x0C0A, "ES"),
        (0x0411, "JA"),
        (0x0412, "KO"),
        (0x041D, "SV"),
        (0x0414, "PL"),
        (0x0405, "CS"),
        (0x0422, "UK"),
    ];
    for (langid, name) in cases {
        assert_eq!(langid_to_name(langid), name);
    }
}

#[test]
fn sublanguage_bits_are_ignored() {
    assert_eq!(langid_to_name(0x0809), "EN");
    assert_eq!(langid_to_name(0xFC09), "EN");
    assert_eq!(langid_to_name(0x0009), "EN");
}

#[test]
fn unknown_language_is_three_hex_digits() {
    assert_eq!(langid_to_name(0x043F), "03F");
    assert_eq!(langid_to_name(0x0000), "000");
    assert_eq!(langid_to_name(0x03FF), "3FF");
    assert_eq!(langid_to_name(0x0401), "001");
    assert_eq!(langid_to_name(0x042B), "02B");
    assert_eq!(langid_to_name(0x0415), "015");
    assert_eq!(langid_to_name(0xFFFF), "3FF");
}

#[test]
fn langid_is_low_word_of_handle() {
    assert_eq!(hkl_to_langid(EN_US), 0x0409);
    assert_eq!(hkl_to_langid(0xF002_0419), 0x0419);
    assert_eq!(hkl_to_langid(0), 0);
    assert_eq!(hkl_to_langid(usize::MAX), 0xFFFF);
}

#[test]
fn current_layout_name_from_handle() {
    assert_eq!(get_current_layout_name(RU_RU), "RU");
    assert_eq!(get_current_layout_name(0x0000_043F), "03F");
}

#[test]
fn single_layout_does_not_switch() {
    let plan = switch_to_next_layout(&vec![EN_US], EN_US);
    assert_eq!(plan.target, None);
    assert_eq!(plan.name, "EN");
    let plan = switch_to_next_layout(&vec![], RU_RU);
    assert_eq!(plan.target, None);
    assert_eq!(plan.name, "RU");
}

#[test]
fn switch_moves_to_next_and_wraps() {
    let layouts = vec![EN_US, RU_RU, DE_DE];
    let plan = switch_to_next_layout(&layouts, EN_US);
    assert_eq!(plan.target, Some(RU_RU));
    assert_eq!(plan.name, "RU");
    let plan = switch_to_next_layout(&layouts, RU_RU);
    assert_eq!(plan.target, Some(DE_DE));
    assert_eq!(plan.name, "DE");
    let plan = switch_to_next_layout(&layouts, DE_DE);
    assert_eq!(plan.target, Some(EN_US));
    assert_eq!(plan.name, "EN");
}

#[test]
fn unlisted_handle_falls_back_to_language() {
    let layouts = vec![EN_US, RU_RU];
    let plan = switch_to_next_layout(&layouts, 0xF001_0409);
    assert_eq!(plan.target, Some(RU_RU));
}

#[test]
fn unknown_current_layout_goes_to_first() {
    let layouts = vec![EN_US, RU_RU, DE_DE];
    let plan = switch_to_next_layout(&layouts, 0x0411_0411);
    assert_eq!(plan.target, Some(EN_US));
    assert_eq!(plan.name, "EN");
}

#[test]
fn same_langid_twice_moves_past_current_handle() {
    let dvorak = 0xF002_0409;
    let layouts = vec![EN_US, dvorak, RU_RU];
    let plan = switch_to_next_layout(&layouts, dvorak);
    assert_eq!(plan.target, Some(RU_RU));
    assert_eq!(plan.name, "RU");
    let plan = switch_to_next_layout(&layouts, EN_US);
    assert_eq!(plan.target, Some(dvorak));
    assert_eq!(plan.name, "EN");
}

#[test]
fn whole_langid_decides_the_match() {
    let layouts = vec![EN_US, EN_GB, RU_RU];
    let plan = switch_to_next_layout(&layouts, EN_GB);
    assert_eq!(plan.target, Some(RU_RU));
    assert_eq!(plan.name, "RU");
}

#[test]
fn presses_cycle_through_every_layout() {
    let layouts = vec![EN_US, RU_RU, DE_DE, 0x0411_0411];
    let mut current = RU_RU;
    let mut seen = Vec::new();
    for _ in 0..layouts.len() {
        current = switch_to_next_layout(&layouts, current).target.unwrap();
        seen.push(current);
    }
    assert_eq!(current, RU_RU);
    assert_eq!(seen, vec![DE_DE, 0x0411_0411, EN_US, RU_RU]);
}
