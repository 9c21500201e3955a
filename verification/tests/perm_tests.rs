use permcon::{parse, FilePermission, GroupPermission, ParseError, SourceFormat, SpecialPermission};

fn triplet(read: bool, write: bool, execute: bool, special: bool) -> GroupPermission {
    GroupPermission { read, write, execute, special }
}

#[test]
fn group_permission_from_symbolic_bits() {
    assert_eq!(
        GroupPermission::from_symbolic_bits("r-t"),
        Ok(triplet(true, false, true, true))
    );
    assert_eq!(
        GroupPermission::from_symbolic_bits("rwS"),
        Ok(triplet(true, true, false, true))
    );
    assert_eq!(
        GroupPermission::from_symbolic_bits("---"),
        Ok(triplet(false, false, false, false))
    );
    assert_eq!(
        GroupPermission::from_symbolic_bits("rw"),
        Err(ParseError::InvalidSymbolicPermission)
    );
    assert_eq!(
        GroupPermission::from_symbolic_bits("rwxr"),
        Err(ParseError::InvalidSymbolicPermission)
    );
}

#[test]
fn group_permission_from_octal_digit() {
    assert_eq!(
        GroupPermission::from_octal_digit(5, false),
        Ok(triplet(true, false, true, false))
    );
    assert_eq!(
        GroupPermission::from_octal_digit(6, true),
        Ok(triplet(true, true, false, true))
    );
}

#[test]
fn group_permission_renders_symbolic_and_octal() {
    let g = triplet(true, false, true, true);
    assert_eq!(g.to_symbolic_str(&'t'), String::from("r-t"));
    assert_eq!(g.to_symbolic_str(&'s'), String::from("r-s"));
    assert_eq!(g.to_octal_digit(), 5);
    assert_eq!(g.as_rwx_array(), [true, false, true]);

    let g = triplet(true, true, false, true);
    assert_eq!(g.to_symbolic_str(&'s'), String::from("rwS"));
    assert_eq!(g.to_octal_digit(), 6);

    let g = triplet(true, true, true, false);
    assert_eq!(g.to_symbolic_str(&'s'), String::from("rwx"));
    assert_eq!(g.to_octal_digit(), 7);
}

#[test]
fn parse_builds_the_full_model_from_symbolic() {
    let perm = parse("-rwxr-xr-T").unwrap();

    assert_eq!(
        perm,
        FilePermission {
            user: triplet(true, true, true, false),
            group: triplet(true, false, true, false),
            other: triplet(true, false, false, true),
            filetype: String::from("Regular File"),
            filetype_char: '-',
            source_format: Some(SourceFormat::Symbolic),
            special: [
                SpecialPermission::Nil,
                SpecialPermission::Nil,
                SpecialPermission::StickyBit,
            ],
        }
    );
}

// Scenario: uppercase special char means "set but not executing"; the sticky
// bit shows up as a leading 1 in octal.
#[test]
fn scenario_symbolic_with_uppercase_sticky() {
    let perm = parse("-rwxr-xr-T").unwrap();
    assert!(perm.user.read && perm.user.write && perm.user.execute && !perm.user.special);
    assert!(perm.group.read && !perm.group.write && perm.group.execute && !perm.group.special);
    assert!(perm.other.read && !perm.other.write && !perm.other.execute && perm.other.special);
    assert_eq!(perm.to_octal_str(), String::from("1754"));
}

#[test]
fn scenario_octal_to_symbolic() {
    let perm = parse("1754").unwrap();
    assert_eq!(perm.to_symbolic_str(), String::from("-rwxr-xr-T"));
    assert_eq!(perm.source_format, Some(SourceFormat::Octal));
}

#[test]
fn scenario_symbolic_without_filetype_char() {
    let perm = parse("rwxrwxr-t").unwrap();
    assert_eq!(perm.filetype_char, '-');
    assert_eq!(perm.to_octal_str(), String::from("1775"));
}

#[test]
fn scenario_setuid_setgid_from_octal() {
    let perm = parse("6755").unwrap();
    assert_eq!(
        perm.special,
        [
            SpecialPermission::SUID,
            SpecialPermission::SGID,
            SpecialPermission::Nil,
        ]
    );
    // user digit 7 with setuid renders rws; group digit 5 with setgid
    // renders r-s (digit 5 carries no write bit)
    assert_eq!(perm.to_symbolic_str(), String::from("-rwsr-sr-x"));

    let perm = parse("6775").unwrap();
    assert_eq!(perm.to_symbolic_str(), String::from("-rwsrwsr-x"));
}

#[test]
fn scenario_invalid_input() {
    assert_eq!(
        parse("invalid!"),
        Err(ParseError::InvalidPermission(String::from("invalid!")))
    );
    assert_eq!(
        parse(""),
        Err(ParseError::InvalidPermission(String::from("")))
    );
}

#[test]
fn scenario_directory() {
    let perm = parse("drwxr-xr-x").unwrap();
    assert_eq!(perm.filetype, String::from("Directory"));
    assert_eq!(perm.filetype_char, 'd');
    assert_eq!(perm.to_octal_str(), String::from("0755"));
}

#[test]
fn symbolic_round_trip() {
    for s in ["-rwxr-xr-T", "drwxr-xr-t", "lrwxrwxrwx", "-rwSr-Sr--", "----------"] {
        assert_eq!(parse(s).unwrap().to_symbolic_str(), String::from(s));
    }
}

#[test]
fn octal_round_trip() {
    for s in ["0000", "0644", "1754", "4755", "2775", "7777"] {
        assert_eq!(parse(s).unwrap().to_octal_str(), String::from(s));
    }
}

// Equal read/write/execute bits encode consistently across the two
// notations: a special-bit-free symbolic string and the matching octal
// string produce models that render identically but for the filetype slot.
#[test]
fn cross_format_consistency() {
    let from_symbolic = parse("rw-r--r--").unwrap();
    let from_octal = parse("0644").unwrap();
    assert_eq!(from_symbolic.to_octal_str(), from_octal.to_octal_str());
    assert_eq!(from_symbolic.to_symbolic_str(), from_octal.to_symbolic_str());
    assert_eq!(from_symbolic.to_symbolic_bits_arr(), from_octal.to_symbolic_bits_arr());
}

#[test]
fn dispatch_prefers_symbolic() {
    // no string is both valid symbolic and valid octal (disjoint alphabets),
    // but each grammar must be reachable through the single entry point
    assert_eq!(parse("755").unwrap().source_format, Some(SourceFormat::Octal));
    assert_eq!(
        parse("rwxr-xr-x").unwrap().source_format,
        Some(SourceFormat::Symbolic)
    );
}

#[test]
fn to_symbolic_bits_arr_splits_triplets() {
    let perm = parse("drwxr-xr-t").unwrap();
    assert_eq!(
        perm.to_symbolic_bits_arr(),
        [String::from("rwx"), String::from("r-x"), String::from("r-t")]
    );
}

#[test]
fn to_perm_group_array_orders_triplets() {
    let perm = parse("drwxr-xr-t").unwrap();
    assert_eq!(
        perm.to_perm_group_array(),
        [&perm.user, &perm.group, &perm.other]
    );
    assert_eq!(perm.user, triplet(true, true, true, false));
    assert_eq!(perm.group, triplet(true, false, true, false));
    assert_eq!(perm.other, triplet(true, false, true, true));
}

#[test]
fn builders_from_records() {
    let sym = permcon::Symbolic::from_str("rwsr-x--T").unwrap();
    let perm = FilePermission::from_symbolic(sym);
    assert_eq!(perm.user, triplet(true, true, true, true));
    assert_eq!(perm.other, triplet(false, false, false, true));
    assert_eq!(
        perm.special,
        [
            SpecialPermission::SUID,
            SpecialPermission::Nil,
            SpecialPermission::StickyBit,
        ]
    );

    let oct = permcon::Octal::from_str("4755").unwrap();
    let perm = FilePermission::from_octal(oct);
    assert_eq!(perm.user, triplet(true, true, true, true));
    assert_eq!(perm.group, triplet(true, false, true, false));
    assert_eq!(perm.other, triplet(true, false, true, false));
    assert_eq!(perm.filetype, String::from("Regular File"));
    assert_eq!(perm.filetype_char, '-');
}
