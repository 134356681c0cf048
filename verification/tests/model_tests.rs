use gmtool::attribute_bonus::STLimitation;
use gmtool::os_string::PortableOsString;
use gmtool::rejection::Rejections;
use gmtool::bonus::Bonuses;
use gmtool::control_roll::{ControlRoll, ControlRollAdjust};
use gmtool::feature::{SpellSelectionType, StringCriteria};
use gmtool::print_settings::{default_number_up, is_default_number_up};
use gmtool::weapon::WeaponSTDamage;

#[test]
fn bonus_constructors_set_one_field() {
    let b = Bonuses::with_strength(3);
    assert_eq!((b.strength, b.hit_points, b.health, b.fatigue_points), (3, 0, 0, 0));
    let b = Bonuses::with_hit_points(-2);
    assert_eq!((b.strength, b.hit_points, b.health, b.fatigue_points), (0, -2, 0, 0));
    let b = Bonuses::with_health(5);
    assert_eq!((b.strength, b.hit_points, b.health, b.fatigue_points), (0, 0, 5, 0));
    let b = Bonuses::with_fatigue_points(1);
    assert_eq!((b.strength, b.hit_points, b.health, b.fatigue_points), (0, 0, 0, 1));
    let b = Bonuses::default();
    assert_eq!((b.strength, b.hit_points, b.health, b.fatigue_points), (0, 0, 0, 0));
}

#[test]
fn steal_adds_field_by_field() {
    let mut acc = Bonuses::with_strength(2);
    acc.steal(Bonuses::with_hit_points(3));
    acc.steal(Bonuses::with_strength(-1));
    assert_eq!((acc.strength, acc.hit_points, acc.health, acc.fatigue_points), (1, 3, 0, 0));
}

#[test]
fn sum_totals_every_field() {
    let items = vec![
        Bonuses::with_strength(1),
        Bonuses::with_strength(2),
        Bonuses::with_health(-4),
        Bonuses::with_fatigue_points(10),
    ];
    let total = Bonuses::sum(&items);
    assert_eq!(
        (total.strength, total.hit_points, total.health, total.fatigue_points),
        (3, 0, -4, 10)
    );
    let empty = Bonuses::sum(&Vec::new());
    assert_eq!((empty.strength, empty.hit_points, empty.health, empty.fatigue_points), (0, 0, 0, 0));
}

#[test]
fn control_roll_numbers_match_the_format() {
    assert_eq!(u64::from(&ControlRoll::NotApplicable), 0);
    assert_eq!(u64::from(&ControlRoll::Rarely), 6);
    assert_eq!(u64::from(&ControlRoll::FairlyOften), 9);
    assert_eq!(u64::from(&ControlRoll::QuiteOften), 12);
    assert_eq!(u64::from(&ControlRoll::AlmostAlways), 15);
    assert_eq!(u64::from(&ControlRoll::NoneRequired), u64::MAX);
}

#[test]
fn control_roll_parsing_round_trips() {
    for roll in [
        ControlRoll::NotApplicable,
        ControlRoll::Rarely,
        ControlRoll::FairlyOften,
        ControlRoll::QuiteOften,
        ControlRoll::AlmostAlways,
        ControlRoll::NoneRequired,
    ] {
        assert_eq!(ControlRoll::from(u64::from(&roll)), roll);
    }
    // A number naming no roll means none is required.
    assert_eq!(ControlRoll::from(7), ControlRoll::NoneRequired);
}

#[test]
fn model_defaults() {
    assert_eq!(ControlRoll::default(), ControlRoll::NoneRequired);
    assert_eq!(ControlRollAdjust::default(), ControlRollAdjust::NoAdjust);
    assert_eq!(STLimitation::default(), STLimitation::NoLimitation);
    assert_eq!(WeaponSTDamage::default(), WeaponSTDamage::NoSTDamage);
    assert!(matches!(StringCriteria::default(), StringCriteria::Any));
    assert!(matches!(SpellSelectionType::default(), SpellSelectionType::AllColleges));
}

#[test]
fn number_up_default() {
    assert_eq!(default_number_up(), 1);
    assert!(is_default_number_up(&1));
    assert!(!is_default_number_up(&2));
}

#[test]
fn rejection_status_codes() {
    let p = PortableOsString::Undifferentiated(String::from("x.gcs"));
    let d = String::from("detail");
    assert_eq!(Rejections::MalformedBody { detail: d.clone() }.status_code(), 400);
    assert_eq!(Rejections::SessionDataUnserializable { detail: d.clone() }.status_code(), 500);
    assert_eq!(Rejections::BincodeReplyUnserializable { detail: d.clone() }.status_code(), 500);
    assert_eq!(Rejections::NoCurdirRelativePath { path: p.clone() }.status_code(), 428);
    assert_eq!(Rejections::NoCurdirToLs.status_code(), 428);
    assert_eq!(Rejections::LsDirError { detail: d.clone() }.status_code(), 500);
    assert_eq!(Rejections::ReadError { path: p.clone(), detail: d.clone() }.status_code(), 404);
    assert_eq!(Rejections::SheetParseError { path: p, detail: d }.status_code(), 404);
    assert_eq!(Rejections::Unauthorized.status_code(), 401);
}
