use feruca::{
    all_ascii, compare_ascii, compare_incremental, get_key, pack_weights, primary, Catalog,
    Locale, Tailoring, Weights, SENTINEL,
};
use std::cmp::Ordering;

fn cps(s: &str) -> Vec<u32> {
    s.chars().map(|c| c as u32).collect()
}

fn w(variable: bool, p: u16, s: u16, t: u16) -> Weights {
    Weights { variable, primary: p, secondary: s, tertiary: t }
}

fn ce(variable: bool, p: u16, s: u16, t: u16) -> u32 {
    pack_weights(variable, p, s, t)
}

#[test]
fn ascii_lower_case_before_upper_case() {
    assert_eq!(compare_ascii(cps("abc"), cps("ABC")), Ordering::Less);
    assert_eq!(compare_ascii(cps("ABC"), cps("abc")), Ordering::Greater);
    assert_eq!(compare_ascii(cps("aBc"), cps("abC")), Ordering::Greater);
    assert_eq!(compare_ascii(cps("Abc"), cps("ABc")), Ordering::Less);
}

#[test]
fn ascii_case_insensitive_first() {
    assert_eq!(compare_ascii(cps("abd"), cps("ABC")), Ordering::Greater);
    assert_eq!(compare_ascii(cps("ABC"), cps("abd")), Ordering::Less);
    assert_eq!(compare_ascii(cps("ab"), cps("abc")), Ordering::Less);
    assert_eq!(compare_ascii(cps("a1"), cps("a1")), Ordering::Equal);
    assert_eq!(compare_ascii(cps("9"), cps("a")), Ordering::Less);
}

#[test]
fn ascii_gate() {
    assert!(all_ascii(&cps("abcXYZ019"), &cps("")));
    assert!(!all_ascii(&cps("abc"), &cps("a-b")));
    assert!(!all_ascii(&cps("a b"), &cps("abc")));
    assert!(!all_ascii(&cps("é"), &cps("e")));
}

#[test]
fn key_of_a_and_upper_a() {
    let a = vec![ce(false, 0x2075, 0x20, 0x02), SENTINEL];
    let upper = vec![ce(false, 0x2075, 0x20, 0x08), SENTINEL];
    let ka = get_key(&a, false);
    let ku = get_key(&upper, false);
    assert_eq!(ka, vec![0x2075, 0x20, 0x02, 0x2075]);
    assert_eq!(ku, vec![0x2075, 0x20, 0x08, 0x2075]);
    assert_eq!(ka[..2], ku[..2]);
    assert_ne!(ka[2], ku[2]);
    assert_eq!(compare_incremental(&a, &upper, false), Ordering::Less);
    assert_eq!(compare_incremental(&a, &upper, false), ka.cmp(&ku));
}

#[test]
fn key_levels_in_order() {
    let cea = vec![
        ce(false, 0x2075, 0x20, 0x02),
        ce(true, 0x0209, 0x20, 0x02),
        ce(false, 0, 0x25, 0x02),
        ce(false, 0x2076, 0x20, 0x08),
        SENTINEL,
        ce(false, 0x3000, 0x20, 0x02),
    ];
    assert_eq!(
        get_key(&cea, false),
        vec![
            0x2075, 0x0209, 0x2076, 0x20, 0x20, 0x25, 0x20, 0x02, 0x02, 0x02, 0x08, 0x2075,
            0x0209, 0, 0x2076
        ]
    );
    assert_eq!(
        get_key(&cea, true),
        vec![
            0x2075, 0x2076, 0x20, 0x20, 0x25, 0x20, 0x02, 0x02, 0x02, 0x08, 0x2075, 0x0209, 0,
            0x2076
        ]
    );
}

#[test]
fn shifting_defers_punctuation() {
    let ab = vec![ce(false, 0x2075, 0x20, 0x02), ce(false, 0x2090, 0x20, 0x02), SENTINEL];
    let a_dash_b = vec![
        ce(false, 0x2075, 0x20, 0x02),
        ce(true, 0x020D, 0x20, 0x02),
        ce(false, 0x2090, 0x20, 0x02),
        SENTINEL,
    ];
    assert_eq!(compare_incremental(&ab, &a_dash_b, false), Ordering::Greater);
    assert_eq!(compare_incremental(&ab, &a_dash_b, true), Ordering::Less);
    assert_eq!(get_key(&ab, true)[..2], get_key(&a_dash_b, true)[..2]);
    let a_dash = vec![ce(false, 0x2075, 0x20, 0x02), ce(true, 0x020D, 0x20, 0x02), SENTINEL];
    let a = vec![ce(false, 0x2075, 0x20, 0x02), SENTINEL];
    assert_eq!(compare_incremental(&a, &a_dash, false), Ordering::Less);
    assert_eq!(compare_incremental(&a, &a_dash, true), Ordering::Less);
    assert_eq!(get_key(&a, true)[..1], get_key(&a_dash, true)[..1]);
}

#[test]
fn variable_element_only_in_quaternary_when_shifting() {
    let plain = vec![ce(false, 0x2075, 0x20, 0x02), SENTINEL];
    let spaced = vec![ce(true, 0x0209, 0, 0), ce(false, 0x2075, 0x20, 0x02), SENTINEL];
    assert_eq!(compare_incremental(&plain, &spaced, true), Ordering::Greater);
    assert_eq!(get_key(&spaced, true), vec![0x2075, 0x20, 0x02, 0x0209, 0x2075]);
    assert_eq!(compare_incremental(&plain, &spaced, false), Ordering::Greater);
}

#[test]
fn zero_primary_does_not_change_primary_level() {
    let base = vec![ce(false, 0x2075, 0x20, 0x02), SENTINEL];
    let marked = vec![ce(false, 0x2075, 0x20, 0x02), ce(false, 0, 0x25, 0x02), SENTINEL];
    let other = vec![ce(false, 0x2076, 0x20, 0x02), SENTINEL];
    for shifting in [false, true] {
        assert_eq!(compare_incremental(&base, &other, shifting), Ordering::Less);
        assert_eq!(compare_incremental(&marked, &other, shifting), Ordering::Less);
        assert_eq!(compare_incremental(&base, &marked, shifting), Ordering::Less);
        assert_eq!(get_key(&base, shifting)[0], get_key(&marked, shifting)[0]);
    }
}

#[test]
fn incremental_reflexive() {
    let cea = vec![
        ce(false, 0x2075, 0x20, 0x02),
        ce(true, 0x0209, 0x20, 0x02),
        ce(false, 0, 0x25, 0x02),
        SENTINEL,
    ];
    assert_eq!(compare_incremental(&cea, &cea, true), Ordering::Equal);
    assert_eq!(compare_incremental(&cea, &cea, false), Ordering::Equal);
    assert_eq!(compare_incremental(&[SENTINEL], &[], true), Ordering::Equal);
}

#[test]
fn incremental_antisymmetric_and_transitive() {
    let a = vec![ce(false, 0x2075, 0x20, 0x02), SENTINEL];
    let b = vec![ce(false, 0x2075, 0x20, 0x08), SENTINEL];
    let c = vec![ce(false, 0x2076, 0x20, 0x02), SENTINEL];
    for shifting in [false, true] {
        assert_eq!(compare_incremental(&a, &b, shifting), Ordering::Less);
        assert_eq!(compare_incremental(&b, &a, shifting), Ordering::Greater);
        assert_eq!(compare_incremental(&b, &c, shifting), Ordering::Less);
        assert_eq!(compare_incremental(&a, &c, shifting), Ordering::Less);
    }
}

#[test]
fn incremental_agrees_with_keys() {
    let x = vec![ce(false, 0x2075, 0x20, 0x02), ce(false, 0x2090, 0x20, 0x02), SENTINEL];
    let y = vec![ce(false, 0x2075, 0x20, 0x02), ce(false, 0x2091, 0x20, 0x02), SENTINEL];
    for shifting in [false, true] {
        let o = compare_incremental(&x, &y, shifting);
        assert_eq!(o, Ordering::Less);
        assert_eq!(o, get_key(&x, shifting).cmp(&get_key(&y, shifting)));
    }
}

#[test]
fn incremental_level_prefix_comes_first() {
    let short = vec![ce(false, 0x2075, 0x20, 0x02), SENTINEL];
    let long = vec![ce(false, 0x2075, 0x20, 0x02), ce(false, 0x2076, 0x20, 0x02), SENTINEL];
    assert_eq!(compare_incremental(&short, &long, false), Ordering::Less);
    assert_eq!(compare_incremental(&long, &short, true), Ordering::Greater);
}

#[test]
fn defaults() {
    assert_eq!(Tailoring::default(), Tailoring::Cldr(Locale::Root));
    assert_eq!(Locale::default(), Locale::Root);
    assert_eq!(Weights::default(), w(false, 0, 0, 0));
}

#[test]
fn pack_and_unpack() {
    let x = w(true, 0x1234, 0x1FF, 0x3F);
    let p = x.pack();
    assert_eq!(Weights::unpack(p), x);
    assert_eq!(primary(p), 0x1234);
    assert_eq!(pack_weights(false, 1, 2, 3), 0x0001_0602);
}

fn sample_catalog() -> Catalog {
    let mut c = Catalog::new();
    assert!(c.insert_single(false, 76, &vec![w(false, 0x2200, 0x20, 0x08)]));
    assert!(c.insert_single(false, 65, &vec![w(false, 0x2075, 0x20, 0x08)]));
    assert!(c.insert_single(false, 183, &vec![w(true, 0x0260, 0x20, 0x02)]));
    assert!(c.insert_multi(false, &[76, 183], &vec![w(false, 0x2201, 0x20, 0x08)]));
    assert!(c.insert_single(false, 3270, &vec![w(false, 0x3000, 0x20, 0x02)]));
    assert!(c.insert_single(false, 3266, &vec![w(false, 0x3001, 0x20, 0x02)]));
    assert!(c.insert_single(false, 3285, &vec![w(false, 0x3002, 0x20, 0x02)]));
    assert!(c.insert_multi(
        false,
        &[3270, 3266, 3285],
        &vec![w(false, 0x3010, 0x20, 0x02), w(false, 0x3011, 0x20, 0x02)]
    ));
    assert!(c.insert_single(true, 65, &vec![w(false, 0x1000, 0x20, 0x08)]));
    c
}

#[test]
fn two_code_point_lookahead() {
    let c = sample_catalog();
    let t = Tailoring::Ducet;
    assert_eq!(c.lookup(&[76, 183], t), vec![ce(false, 0x2201, 0x20, 0x08), SENTINEL]);
    assert_eq!(
        c.lookup(&[76, 65], t),
        vec![ce(false, 0x2200, 0x20, 0x08), ce(false, 0x2075, 0x20, 0x08), SENTINEL]
    );
    assert_eq!(c.lookup(&[76], t), vec![ce(false, 0x2200, 0x20, 0x08), SENTINEL]);
}

#[test]
fn three_code_point_lookahead() {
    let c = sample_catalog();
    let t = Tailoring::Ducet;
    assert_eq!(
        c.lookup(&[3270, 3266, 3285], t),
        vec![ce(false, 0x3010, 0x20, 0x02), ce(false, 0x3011, 0x20, 0x02), SENTINEL]
    );
    assert_eq!(
        c.lookup(&[3270, 3266, 65], t),
        vec![
            ce(false, 0x3000, 0x20, 0x02),
            ce(false, 0x3001, 0x20, 0x02),
            ce(false, 0x2075, 0x20, 0x08),
            SENTINEL
        ]
    );
}

#[test]
fn cldr_table_first() {
    let c = sample_catalog();
    assert_eq!(
        c.lookup(&[65], Tailoring::Cldr(Locale::Root)),
        vec![ce(false, 0x1000, 0x20, 0x08), SENTINEL]
    );
    assert_eq!(c.lookup(&[65], Tailoring::Ducet), vec![ce(false, 0x2075, 0x20, 0x08), SENTINEL]);
    assert_eq!(
        c.lookup(&[76], Tailoring::Cldr(Locale::Root)),
        vec![ce(false, 0x2200, 0x20, 0x08), SENTINEL]
    );
}

#[test]
fn implicit_weights_of_unassigned() {
    let c = Catalog::new();
    let x = c.lookup(&[0x50000], Tailoring::Ducet);
    let y = c.lookup(&[0x50001], Tailoring::Ducet);
    assert_eq!(
        x,
        vec![ce(false, 0xFBCA, 0x20, 0x02), ce(false, 0x8000, 0, 0), SENTINEL]
    );
    assert_eq!(primary(y[1]), 0x8001);
    assert_ne!(primary(x[0]), 0);
    assert_ne!(x, y);
    assert_eq!(compare_incremental(&x, &y, false), Ordering::Less);
    assert_eq!(compare_incremental(&x, &c.lookup(&[0x58000], Tailoring::Ducet), false), Ordering::Less);
    let han = c.lookup(&[0x4E00], Tailoring::Ducet);
    assert_eq!(primary(han[0]), 0xFB40);
    assert_eq!(primary(han[1]), 0xCE00);
    let included = c.lookup(&[177_977], Tailoring::Ducet);
    assert_eq!(primary(included[0]), 0xFB80 + 5);
}

#[test]
fn refused_entries() {
    let mut c = Catalog::new();
    assert!(!c.insert_single(false, 1, &vec![]));
    assert!(!c.insert_single(false, 1, &vec![w(false, 1, 600, 2)]));
    assert!(!c.insert_single(false, 1, &vec![w(true, 0xFFFF, 0x1FF, 0x3F)]));
    assert!(!c.insert_multi(false, &[1], &vec![w(false, 1, 2, 3)]));
    assert!(!c.insert_multi(false, &[1, 0x110000], &vec![w(false, 1, 2, 3)]));
    assert_eq!(c.lookup(&[1], Tailoring::Ducet).len(), 3);
}
