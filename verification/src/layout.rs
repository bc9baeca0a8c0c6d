use vstd::prelude::*;
use vstd::string::StringExecFns;

verus! {

/// The language identifier (LANGID) carried by a keyboard-layout handle: its low 16 bits.
pub open spec fn langid_of(hkl: usize) -> int {
    hkl as int % 0x10000
}

/// The primary language of a LANGID: its low 10 bits.
pub open spec fn primary_language(langid: int) -> int {
    langid % 0x400
}

/// The two-letter code shown for the primary languages that have one.
pub open spec fn language_code(primary: int) -> Option<Seq<char>> {
    if primary == 0x09 {
        Some(seq!['E', 'N'])
    } else if primary == 0x19 {
        Some(seq!['R', 'U'])
    } else if primary == 0x04 {
        Some(seq!['Z', 'H'])
    } else if primary == 0x07 {
        Some(seq!['D', 'E'])
    } else if primary == 0x0C {
        Some(seq!['F', 'R'])
    } else if primary == 0x0A {
        Some(seq!['E', 'S'])
    } else if primary == 0x11 {
        Some(seq!['J', 'A'])
    } else if primary == 0x12 {
        Some(seq!['K', 'O'])
    } else if primary == 0x1D {
        Some(seq!['S', 'V'])
    } else if primary == 0x14 {
        Some(seq!['P', 'L'])
    } else if primary == 0x05 {
        Some(seq!['C', 'S'])
    } else if primary == 0x22 {
        Some(seq!['U', 'K'])
    } else {
        None
    }
}

/// An upper-case hexadecimal digit.
pub open spec fn hex_digit(d: int) -> char {
    if d < 10 {
        (d + 48) as char
    } else {
        (d + 55) as char
    }
}

/// A value below 0x1000 written as exactly three upper-case hexadecimal digits.
pub open spec fn hex3(v: int) -> Seq<char> {
    seq![hex_digit(v / 256), hex_digit(v / 16 % 16), hex_digit(v % 16)]
}

/// The name shown for a LANGID: the language's code, or its primary language
/// number in three hexadecimal digits when it has none.
pub open spec fn layout_name(langid: int) -> Seq<char> {
    let primary = primary_language(langid);
    match language_code(primary) {
        Some(code) => code,
        None => hex3(primary),
    }
}

/// The name shows the primary language and nothing else: two LANGIDs get the
/// same name exactly when their primary languages agree.
pub proof fn lemma_name_identifies_primary_language(a: int, b: int)
    requires
        0 <= a,
        0 <= b,
    ensures
        (layout_name(a) == layout_name(b)) <==> (primary_language(a) == primary_language(b)),
{
    let p = primary_language(a);
    let q = primary_language(b);
    if p != q && layout_name(a) == layout_name(b) {
        let na = layout_name(a);
        let nb = layout_name(b);
        assert(na[0] == nb[0] && na[1] == nb[1] && na.len() == nb.len());
        if language_code(p) is None && language_code(q) is None {
            assert(na[2] == nb[2]);
            lemma_hex_digit_injective(p / 256, q / 256);
            lemma_hex_digit_injective(p / 16 % 16, q / 16 % 16);
            lemma_hex_digit_injective(p % 16, q % 16);
            assert(p == 256 * (p / 256) + 16 * (p / 16 % 16) + p % 16);
            assert(q == 256 * (q / 256) + 16 * (q / 16 % 16) + q % 16);
        }
    }
}

proof fn lemma_hex_digit_injective(d: int, e: int)
    requires
        0 <= d < 16,
        0 <= e < 16,
        hex_digit(d) == hex_digit(e),
    ensures
        d == e,
{
    assert(hex_digit(d) as int == if d < 10 { d + 48 } else { d + 55 });
    assert(hex_digit(e) as int == if e < 10 { e + 48 } else { e + 55 });
}

/// The value of an upper-case hexadecimal digit character.
pub open spec fn hex_value(c: char) -> int {
    if c as int <= '9' as int {
        c as int - '0' as int
    } else {
        c as int - 'A' as int + 10
    }
}

/// `c` is one of `0`-`9`, `A`-`F`.
pub open spec fn is_upper_hex_char(c: char) -> bool {
    ('0' as int <= c as int <= '9' as int) || ('A' as int <= c as int <= 'F' as int)
}

/// A LANGID whose primary language (its low 10 bits) has none of the twelve
/// two-letter codes is named by that primary language in exactly three
/// upper-case hexadecimal digits, most significant first.
pub proof fn lemma_uncoded_name_is_three_hex_digits(langid: int)
    requires
        0 <= langid,
        ({
            let p = langid % 0x400;
            p != 0x09 && p != 0x19 && p != 0x04 && p != 0x07 && p != 0x0C && p != 0x0A && p != 0x11
                && p != 0x12 && p != 0x1D && p != 0x14 && p != 0x05 && p != 0x22
        }),
    ensures
        ({
            let n = layout_name(langid);
            &&& n.len() == 3
            &&& is_upper_hex_char(n[0]) && is_upper_hex_char(n[1]) && is_upper_hex_char(n[2])
            &&& hex_value(n[0]) * 256 + hex_value(n[1]) * 16 + hex_value(n[2]) == langid % 0x400
        }),
{
    let p = langid % 0x400;
    assert(p == 256 * (p / 256) + 16 * (p / 16 % 16) + p % 16);
    assert(0 <= p / 256 < 4);
}

/// The twelve languages with a code: the primary language (low 10 bits) 0x09
/// is named EN, 0x19 RU, 0x04 ZH, 0x07 DE, 0x0C FR, 0x0A ES, 0x11 JA, 0x12 KO,
/// 0x1D SV, 0x14 PL, 0x05 CS and 0x22 UK, whatever the sublanguage.
pub proof fn lemma_coded_names(langid: int)
    requires
        0 <= langid,
    ensures
        langid % 0x400 == 0x09 ==> layout_name(langid) == seq!['E', 'N'],
        langid % 0x400 == 0x19 ==> layout_name(langid) == seq!['R', 'U'],
        langid % 0x400 == 0x04 ==> layout_name(langid) == seq!['Z', 'H'],
        langid % 0x400 == 0x07 ==> layout_name(langid) == seq!['D', 'E'],
        langid % 0x400 == 0x0C ==> layout_name(langid) == seq!['F', 'R'],
        langid % 0x400 == 0x0A ==> layout_name(langid) == seq!['E', 'S'],
        langid % 0x400 == 0x11 ==> layout_name(langid) == seq!['J', 'A'],
        langid % 0x400 == 0x12 ==> layout_name(langid) == seq!['K', 'O'],
        langid % 0x400 == 0x1D ==> layout_name(langid) == seq!['S', 'V'],
        langid % 0x400 == 0x14 ==> layout_name(langid) == seq!['P', 'L'],
        langid % 0x400 == 0x05 ==> layout_name(langid) == seq!['C', 'S'],
        langid % 0x400 == 0x22 ==> layout_name(langid) == seq!['U', 'K'],
{
}

/// The language of a layout handle is its low word: for a handle
/// `high * 0x10000 + low` with `low < 0x10000`, it is `low`.
pub proof fn lemma_langid_is_low_word(hkl: usize, high: int, low: int)
    requires
        0 <= low < 0x10000,
        0 <= high,
        hkl as int == high * 0x10000 + low,
    ensures
        langid_of(hkl) == low,
{
    vstd::arithmetic::div_mod::lemma_fundamental_div_mod_converse(hkl as int, 0x10000, high, low);
}

/// Takes the language identifier out of a keyboard-layout handle value.
pub fn hkl_to_langid(hkl: usize) -> (langid: u16)
    ensures
        langid == langid_of(hkl),
{
    let low = hkl & 0xFFFF;
    proof {
        assert(hkl & 0xFFFF == hkl % 0x10000) by (bit_vector);
    }
    low as u16
}

fn hex_digit_str(d: u16) -> (s: &'static str)
    requires
        d < 16,
    ensures
        s@ == seq![hex_digit(d as int)],
{
    match d {
        0 => {
            proof { reveal_strlit("0"); }
            "0"
        },
        1 => {
            proof { reveal_strlit("1"); }
            "1"
        },
        2 => {
            proof { reveal_strlit("2"); }
            "2"
        },
        3 => {
            proof { reveal_strlit("3"); }
            "3"
        },
        4 => {
            proof { reveal_strlit("4"); }
            "4"
        },
        5 => {
            proof { reveal_strlit("5"); }
            "5"
        },
        6 => {
            proof { reveal_strlit("6"); }
            "6"
        },
        7 => {
            proof { reveal_strlit("7"); }
            "7"
        },
        8 => {
            proof { reveal_strlit("8"); }
            "8"
        },
        9 => {
            proof { reveal_strlit("9"); }
            "9"
        },
        10 => {
            proof { reveal_strlit("A"); }
            "A"
        },
        11 => {
            proof { reveal_strlit("B"); }
            "B"
        },
        12 => {
            proof { reveal_strlit("C"); }
            "C"
        },
        13 => {
            proof { reveal_strlit("D"); }
            "D"
        },
        14 => {
            proof { reveal_strlit("E"); }
            "E"
        },
        _ => {
            proof { reveal_strlit("F"); }
            "F"
        },
    }
}

/// The readable name of a language identifier, such as `EN` or `RU`; a language
/// without a code is shown as its primary language number, e.g. `03F`.
pub fn langid_to_name(langid: u16) -> (name: String)
    ensures
        name@ == layout_name(langid as int),
{
    let primary = langid & 0x3FF;
    proof {
        assert(langid & 0x3FF == langid % 0x400) by (bit_vector);
    }
    if primary == 0x09 {
        proof { reveal_strlit("EN"); }
        String::from_str("EN")
    } else if primary == 0x19 {
        proof { reveal_strlit("RU"); }
        String::from_str("RU")
    } else if primary == 0x04 {
        proof { reveal_strlit("ZH"); }
        String::from_str("ZH")
    } else if primary == 0x07 {
        proof { reveal_strlit("DE"); }
        String::from_str("DE")
    } else if primary == 0x0C {
        proof { reveal_strlit("FR"); }
        String::from_str("FR")
    } else if primary == 0x0A {
        proof { reveal_strlit("ES"); }
        String::from_str("ES")
    } else if primary == 0x11 {
        proof { reveal_strlit("JA"); }
        String::from_str("JA")
    } else if primary == 0x12 {
        proof { reveal_strlit("KO"); }
        String::from_str("KO")
    } else if primary == 0x1D {
        proof { reveal_strlit("SV"); }
        String::from_str("SV")
    } else if primary == 0x14 {
        proof { reveal_strlit("PL"); }
        String::from_str("PL")
    } else if primary == 0x05 {
        proof { reveal_strlit("CS"); }
        String::from_str("CS")
    } else if primary == 0x22 {
        proof { reveal_strlit("UK"); }
        String::from_str("UK")
    } else {
        let mut name = String::new();
        name.append(hex_digit_str(primary / 256));
        name.append(hex_digit_str(primary / 16 % 16));
        name.append(hex_digit_str(primary % 16));
        assert(name@ =~= hex3(primary as int));
        name
    }
}

/// The name of the layout whose handle is `current_layout`.
pub fn get_current_layout_name(current_layout: usize) -> (name: String)
    ensures
        name@ == layout_name(langid_of(current_layout)),
{
    langid_to_name(hkl_to_langid(current_layout))
}

/// What one press of the hotkey does to the layout: the layout to request
/// (none when fewer than two are installed) and the name to show.
pub struct LayoutSwitch {
    pub target: Option<usize>,
    pub name: String,
}

/// `i` is the first position in `layouts` holding the handle `current`.
pub open spec fn is_first_handle(layouts: Seq<usize>, current: usize, i: int) -> bool {
    &&& 0 <= i < layouts.len()
    &&& layouts[i] == current
    &&& forall|j: int| 0 <= j < i ==> #[trigger] layouts[j] != current
}

/// `i` is the first position in `layouts` whose language is `langid`.
pub open spec fn is_first_match(layouts: Seq<usize>, langid: int, i: int) -> bool {
    &&& 0 <= i < layouts.len()
    &&& langid_of(layouts[i]) == langid
    &&& forall|j: int| 0 <= j < i ==> langid_of(#[trigger] layouts[j]) != langid
}

/// Where `current` stands in the installed list: the first position of the
/// handle itself; failing that, the first position of a layout of the same
/// language; none when neither is installed.
pub open spec fn current_position(layouts: Seq<usize>, current: usize) -> Option<int> {
    if exists|i: int| is_first_handle(layouts, current, i) {
        Some(choose|i: int| is_first_handle(layouts, current, i))
    } else if exists|i: int| is_first_match(layouts, langid_of(current), i) {
        Some(choose|i: int| is_first_match(layouts, langid_of(current), i))
    } else {
        None
    }
}

/// The layout that follows `current` in the installed list, wrapping round;
/// the first layout when `current` has no place in the list.
pub open spec fn next_layout(layouts: Seq<usize>, current: usize) -> usize {
    match current_position(layouts, current) {
        Some(i) => layouts[(i + 1) % (layouts.len() as int)],
        None => layouts[0],
    }
}

/// The layout reached from `current` after `presses` presses of the hotkey.
pub open spec fn press_switch(layouts: Seq<usize>, current: usize, presses: nat) -> usize
    decreases presses,
{
    if presses == 0 {
        current
    } else {
        next_layout(layouts, press_switch(layouts, current, (presses - 1) as nat))
    }
}

fn find_handle(layouts: &Vec<usize>, current: usize) -> (found: Option<usize>)
    ensures
        match found {
            Some(i) => is_first_handle(layouts@, current, i as int),
            None => forall|j: int| 0 <= j < layouts.len() ==> #[trigger] layouts@[j] != current,
        },
{
    let n = layouts.len();
    let mut i: usize = 0;
    while i < n
        invariant
            n == layouts.len(),
            i <= n,
            forall|j: int| 0 <= j < i ==> #[trigger] layouts@[j] != current,
        decreases n - i,
    {
        if layouts[i] == current {
            return Some(i);
        }
        i = i + 1;
    }
    None
}

fn find_language(layouts: &Vec<usize>, langid: u16) -> (found: Option<usize>)
    ensures
        match found {
            Some(i) => is_first_match(layouts@, langid as int, i as int),
            None => forall|j: int| 0 <= j < layouts.len() ==> langid_of(#[trigger] layouts@[j]) != langid,
        },
{
    let n = layouts.len();
    let mut i: usize = 0;
    while i < n
        invariant
            n == layouts.len(),
            i <= n,
            forall|j: int| 0 <= j < i ==> langid_of(#[trigger] layouts@[j]) != langid,
        decreases n - i,
    {
        if hkl_to_langid(layouts[i]) == langid {
            return Some(i);
        }
        i = i + 1;
    }
    None
}

/// Where `current` stands in the installed list, as `current_position` says.
fn find_current(layouts: &Vec<usize>, current: usize) -> (found: Option<usize>)
    ensures
        match found {
            Some(i) => current_position(layouts@, current) == Some(i as int),
            None => current_position(layouts@, current) is None,
        },
{
    match find_handle(layouts, current) {
        Some(i) => {
            proof {
                let c = choose|k: int| is_first_handle(layouts@, current, k);
                assert(is_first_handle(layouts@, current, c));
                if c < i {
                    assert(layouts@[c] != current);
                } else if i < c {
                    assert(layouts@[i as int] != current);
                }
            }
            Some(i)
        },
        None => {
            assert(!exists|k: int| is_first_handle(layouts@, current, k)) by {
                if exists|k: int| is_first_handle(layouts@, current, k) {
                    let k = choose|k: int| is_first_handle(layouts@, current, k);
                    assert(layouts@[k] != current);
                }
            }
            let langid = hkl_to_langid(current);
            match find_language(layouts, langid) {
                Some(i) => {
                    proof {
                        let c = choose|k: int| is_first_match(layouts@, langid as int, k);
                        assert(is_first_match(layouts@, langid as int, c));
                        if c < i {
                            assert(langid_of(layouts@[c]) != langid);
                        } else if i < c {
                            assert(langid_of(layouts@[i as int]) != langid);
                        }
                    }
                    Some(i)
                },
                None => {
                    assert(!exists|k: int| is_first_match(layouts@, langid as int, k)) by {
                        if exists|k: int| is_first_match(layouts@, langid as int, k) {
                            let k = choose|k: int| is_first_match(layouts@, langid as int, k);
                            assert(langid_of(layouts@[k]) != langid);
                        }
                    }
                    None
                },
            }
        },
    }
}

/// Decides one press of the hotkey from the installed layouts and the layout of
/// the active window: with two or more layouts, requests the next one in the
/// list and names it; otherwise requests nothing and names the current one.
pub fn switch_to_next_layout(layouts: &Vec<usize>, current: usize) -> (plan: LayoutSwitch)
    ensures
        layouts.len() < 2 ==> plan.target is None && plan.name@ == layout_name(langid_of(current)),
        layouts.len() >= 2 ==> plan.target == Some(next_layout(layouts@, current))
            && plan.name@ == layout_name(langid_of(next_layout(layouts@, current))),
{
    if layouts.len() < 2 {
        return LayoutSwitch { target: None, name: get_current_layout_name(current) };
    }
    let next = match find_current(layouts, current) {
        Some(i) => layouts[(i + 1) % layouts.len()],
        None => layouts[0],
    };
    LayoutSwitch { target: Some(next), name: get_current_layout_name(next) }
}

/// With no layout listed twice, a press moves from any installed layout to
/// the one after it, wrapping round at the end of the list.
pub proof fn lemma_next_layout_advances(layouts: Seq<usize>, i: int)
    requires
        layouts.no_duplicates(),
        0 <= i < layouts.len(),
    ensures
        next_layout(layouts, layouts[i]) == layouts[(i + 1) % (layouts.len() as int)],
{
    let current = layouts[i];
    assert forall|j: int| 0 <= j < i implies #[trigger] layouts[j] != current by {
        assert(layouts[j] != layouts[i]);
    }
    assert(is_first_handle(layouts, current, i));
    let c = choose|k: int| is_first_handle(layouts, current, k);
    if c < i {
        assert(layouts[c] != current);
    } else if i < c {
        assert(layouts[i] != current);
    }
}

/// With no layout listed twice, `k` presses from the layout at `i`
/// reach the layout at `(i + k) mod n`: the hotkey visits every installed
/// layout in list order and is back at the start after `n` presses.
pub proof fn lemma_switching_cycles(layouts: Seq<usize>, i: int, presses: nat)
    requires
        layouts.no_duplicates(),
        0 <= i < layouts.len(),
    ensures
        press_switch(layouts, layouts[i], presses) == layouts[(i + presses) % (layouts.len() as int)],
    decreases presses,
{
    let n = layouts.len() as int;
    if presses == 0 {
        vstd::arithmetic::div_mod::lemma_small_mod(i as nat, n as nat);
    } else {
        lemma_switching_cycles(layouts, i, (presses - 1) as nat);
        let k = (i + presses - 1) % n;
        vstd::arithmetic::div_mod::lemma_mod_bound(i + presses - 1, n);
        lemma_next_layout_advances(layouts, k);
        vstd::arithmetic::div_mod::lemma_add_mod_noop(i + presses - 1, 1, n);
        if n > 1 {
            vstd::arithmetic::div_mod::lemma_small_mod(1, n as nat);
        } else {
            vstd::arithmetic::div_mod::lemma_mod_self_0(1);
            vstd::arithmetic::div_mod::lemma_mod_bound(k + 1, 1);
            vstd::arithmetic::div_mod::lemma_mod_bound(i + presses, 1);
        }
    }
}

/// A handle that is not installed is placed by its language: the press goes
/// to the layout after the first installed layout whose low word matches the
/// handle's, wrapping round, and to the first layout when none matches.
pub proof fn lemma_next_layout_for_unlisted_handle(layouts: Seq<usize>, current: usize, j: int)
    requires
        layouts.len() >= 1,
        forall|i: int| 0 <= i < layouts.len() ==> layouts[i] != current,
    ensures
        (0 <= j < layouts.len() && layouts[j] as int % 0x10000 == current as int % 0x10000
            && forall|k: int| 0 <= k < j ==> #[trigger] layouts[k] as int % 0x10000 != current as int
            % 0x10000) ==> next_layout(layouts, current) == layouts[(j + 1) % (layouts.len() as int)],
        (forall|k: int| 0 <= k < layouts.len() ==> #[trigger] layouts[k] as int % 0x10000
            != current as int % 0x10000) ==> next_layout(layouts, current) == layouts[0],
{
    if exists|i: int| is_first_handle(layouts, current, i) {
        let i = choose|i: int| is_first_handle(layouts, current, i);
        assert(layouts[i] != current);
    }
    if 0 <= j < layouts.len() && layouts[j] as int % 0x10000 == current as int % 0x10000 && forall|
        k: int,
    | 0 <= k < j ==> #[trigger] layouts[k] as int % 0x10000 != current as int % 0x10000 {
        assert(is_first_match(layouts, langid_of(current), j));
        let c = choose|k: int| is_first_match(layouts, langid_of(current), k);
        if c < j {
            assert(layouts[c] as int % 0x10000 != current as int % 0x10000);
        } else if j < c {
            assert(langid_of(layouts[j]) != langid_of(current));
        }
    }
    if forall|k: int| 0 <= k < layouts.len() ==> #[trigger] layouts[k] as int % 0x10000
        != current as int % 0x10000 {
        if exists|i: int| is_first_match(layouts, langid_of(current), i) {
            let i = choose|i: int| is_first_match(layouts, langid_of(current), i);
            assert(layouts[i] as int % 0x10000 != current as int % 0x10000);
        }
    }
}

} // verus!
