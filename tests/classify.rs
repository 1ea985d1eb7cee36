use uptimeem::color::Color;
use uptimeem::uptime::Uptime;

fn rank(u: Uptime) -> u32 {
    match u {
        Uptime::UpUnknown => 0,
        Uptime::UpMin => 1,
        Uptime::Up90 => 2,
        Uptime::Up95 => 3,
        Uptime::Up97 => 4,
        Uptime::Up98 => 5,
        Uptime::Up99 => 6,
        Uptime::Up99_5 => 7,
        Uptime::Up99_8 => 8,
        Uptime::Up99_9 => 9,
        Uptime::Up99_95 => 10,
        Uptime::Up99_99 => 11,
        Uptime::UpMax => 12,
    }
}

#[test]
fn color_names() {
    assert_eq!(Color::BrightGreen.as_str(), "brightgreen");
    assert_eq!(Color::Green.as_str(), "green");
    assert_eq!(Color::YellowGreen.as_str(), "yellowgreen");
    assert_eq!(Color::Yellow.as_str(), "yellow");
    assert_eq!(Color::Orange.as_str(), "orange");
    assert_eq!(Color::Red.as_str(), "red");
    assert_eq!(Color::LightGrey.as_str(), "lightgrey");
}

#[test]
fn tier_labels_and_colors() {
    assert_eq!(Uptime::UpUnknown.as_str(), ("??%", "lightgrey"));
    assert_eq!(Uptime::UpMax.as_str(), (">99.99%", "brightgreen"));
    assert_eq!(Uptime::Up99_99.as_str(), ("99.99%", "brightgreen"));
    assert_eq!(Uptime::Up99_95.as_str(), ("99.95%", "green"));
    assert_eq!(Uptime::Up99_9.as_str(), ("99.9%", "green"));
    assert_eq!(Uptime::Up99_8.as_str(), ("99.8%", "yellowgreen"));
    assert_eq!(Uptime::Up99_5.as_str(), ("99.5%", "yellowgreen"));
    assert_eq!(Uptime::Up99.as_str(), ("99%", "yellow"));
    assert_eq!(Uptime::Up98.as_str(), ("98%", "yellow"));
    assert_eq!(Uptime::Up97.as_str(), ("97%", "orange"));
    assert_eq!(Uptime::Up95.as_str(), ("95%", "orange"));
    assert_eq!(Uptime::Up90.as_str(), ("90%", "red"));
    assert_eq!(Uptime::UpMin.as_str(), ("<90%", "red"));
}

#[test]
fn thresholds_are_inclusive() {
    let den = 100000;
    assert_eq!(Uptime::from_ratio(99995, den), Uptime::UpMax);
    assert_eq!(Uptime::from_ratio(99994, den), Uptime::Up99_99);
    assert_eq!(Uptime::from_ratio(99990, den), Uptime::Up99_99);
    assert_eq!(Uptime::from_ratio(99950, den), Uptime::Up99_95);
    assert_eq!(Uptime::from_ratio(99900, den), Uptime::Up99_9);
    assert_eq!(Uptime::from_ratio(99800, den), Uptime::Up99_8);
    assert_eq!(Uptime::from_ratio(99500, den), Uptime::Up99_5);
    assert_eq!(Uptime::from_ratio(99000, den), Uptime::Up99);
    assert_eq!(Uptime::from_ratio(98000, den), Uptime::Up98);
    assert_eq!(Uptime::from_ratio(97000, den), Uptime::Up97);
    assert_eq!(Uptime::from_ratio(95000, den), Uptime::Up95);
    assert_eq!(Uptime::from_ratio(90000, den), Uptime::Up90);
    assert_eq!(Uptime::from_ratio(89999, den), Uptime::UpMin);
}

#[test]
fn ratio_edges() {
    assert_eq!(Uptime::from_ratio(0, 1), Uptime::UpMin);
    assert_eq!(Uptime::from_ratio(1, 1), Uptime::UpMax);
    assert_eq!(Uptime::from_ratio(u32::MAX, u32::MAX), Uptime::UpMax);
    assert_eq!(Uptime::from_ratio(0, u32::MAX), Uptime::UpMin);
    assert_eq!(Uptime::from_ratio(9, 10), Uptime::Up90);
    assert_eq!(Uptime::from_ratio(99, 100), Uptime::Up99);
}

#[test]
fn classify_is_monotonic_and_total() {
    let den: u32 = 20000;
    let mut last = rank(Uptime::from_ratio(0, den));
    for num in 0..=den {
        let u = Uptime::from_ratio(num, den);
        assert_ne!(u, Uptime::UpUnknown);
        let r = rank(u);
        assert!(r >= last);
        last = r;
    }
    assert_eq!(last, 12);
    // different denominators, same ratio
    assert_eq!(Uptime::from_ratio(1999, 2000), Uptime::from_ratio(9995, 10000));
}
