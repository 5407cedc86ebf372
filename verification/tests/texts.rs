//! Text helpers, the order of names, and what the terminal shows.
use worddrop::order::{is_less, ordering};
use worddrop::text::{
    decimal_string, parse_digits, same_text, split_first, split_text, to_ascii_lower, trim,
};
use worddrop::ui::{human_bytes, show_code};

#[test]
fn human_bytes_formats_units() {
    assert_eq!(human_bytes(0), "0 B");
    assert_eq!(human_bytes(512), "512 B");
    assert_eq!(human_bytes(1024), "1.0 KiB");
    assert_eq!(human_bytes(3 * 1024 * 1024 + 200 * 1024), "3.2 MiB");
}

/// The same, reckoned in floating point.
fn in_floating_point(bytes: u64) -> String {
    let units = ["B", "KiB", "MiB", "GiB", "TiB"];
    let mut value = bytes as f64;
    let mut unit = 0;
    while value >= 1024.0 && unit < units.len() - 1 {
        value /= 1024.0;
        unit += 1;
    }
    if unit == 0 {
        format!("{bytes} B")
    } else {
        format!("{value:.1} {}", units[unit])
    }
}

#[test]
fn human_bytes_rounds_as_floating_point_does() {
    let mut counts = vec![u64::MAX, u64::MAX - 1, u64::MAX / 2];
    for shift in 0..64 {
        let power = 1u64 << shift;
        for offset in [0, 1, 51, 52, 1023] {
            counts.push(power.saturating_add(offset));
            counts.push(power.saturating_sub(offset));
            counts.push(power / 20 * 21 + offset);
        }
    }
    let mut state = 88172645463325252u64;
    for _ in 0..2000 {
        state ^= state << 13;
        state ^= state >> 7;
        state ^= state << 17;
        counts.push(state >> (state % 61));
    }
    // Halfway cases: 1.25 and 1.75 of a unit have an even and an odd neighbour.
    counts.extend([1280, 1792, 1310720, 1835008, 1342177280]);
    for bytes in counts {
        assert_eq!(human_bytes(bytes), in_floating_point(bytes), "{bytes}");
    }
}

#[test]
fn code_display_is_plain_when_not_a_tty() {
    assert_eq!(
        show_code("7-correct-horse-battery", false),
        "配对码 / Pairing code: 7-correct-horse-battery"
    );
    assert_eq!(show_code("7-a", true), "\u{1b}[1;33m配对码 / Pairing code: 7-a\u{1b}[0m");
}

#[test]
fn numbers_are_written_and_read() {
    for n in [0, 7, 10, 4096, u64::MAX] {
        assert_eq!(decimal_string(n), n.to_string());
    }
    assert_eq!(parse_digits("0042"), Some(42));
    assert_eq!(parse_digits("4294967295"), Some(u32::MAX));
    assert_eq!(parse_digits("4294967296"), None);
    assert_eq!(parse_digits(""), None);
    assert_eq!(parse_digits("+1"), None);
    assert_eq!(parse_digits("٣"), None);
}

#[test]
fn texts_are_split_and_trimmed() {
    for text in ["", "-", "a", "a-b", "-a--b-"] {
        let expected: Vec<&str> = text.split('-').collect();
        assert_eq!(split_text(text, '-'), expected, "{text:?}");
    }
    assert_eq!(split_first("7-a-b", '-'), Some(("7".to_string(), "a-b".to_string())));
    assert_eq!(split_first("7", '-'), None);
    for text in ["", "  ", " a ", "\u{a0}a\u{3000}b\t\n", "a"] {
        assert_eq!(trim(text), text.trim(), "{text:?}");
    }
    assert_eq!(to_ascii_lower("PublicÉ"), "publicÉ");
    assert!(same_text("中", "中"));
    assert!(!same_text("a", "ab"));
}

#[test]
fn names_are_ordered_as_texts() {
    let names: Vec<String> =
        ["input/z", "input/a", "é", "input", "input/a", "a", "\u{10000}", "\u{ffff}"]
            .iter()
            .map(|name| name.to_string())
            .collect();
    let order = ordering(&names);
    let sorted: Vec<&String> = order.iter().map(|at| &names[*at]).collect();
    let mut expected: Vec<&String> = names.iter().collect();
    expected.sort();
    assert_eq!(sorted, expected);
    assert!(is_less("a", "b") && !is_less("b", "a") && !is_less("a", "a"));
    assert!(is_less("a", "ab") && is_less("", "a"));
}
