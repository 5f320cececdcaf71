use bear_witness::auth::{authenticate, get_admin_page, handler, Auth, Session};
use bear_witness::bears::{bear_witness, Bear, BrownBear, PolarBear};
use bear_witness::equals::{iso_reflexive, EqualsWitness};
use bear_witness::i18n::{Context, English, French, Localize, Localized};
use bear_witness::Certified;

#[test]
fn certified_reads_through_to_value() {
    let v: Vec<u32> = vec![3, 1, 4];
    let c = Certified::new(v.clone());
    assert_eq!(*c, v);
    assert_eq!(c.len(), v.len());
    assert_eq!(c.iter().sum::<u32>(), 8);
    assert_eq!(&*c, &v);
}

#[test]
fn certified_clone_and_copy_forward() {
    let c = Certified::new(String::from("proven"));
    let d = c.clone();
    assert_eq!(*d, *c);
    let n = Certified::new(7u8);
    let m = n;
    assert_eq!(*n + *m, 14);
}

#[test]
fn brown_bear_keeps_its_own_methods() {
    let certified_bear = bear_witness(BrownBear);
    assert_eq!(certified_bear.growl(), "<brown bear growl>");
    assert_eq!(certified_bear.do_brown_bear_things(), "eating loads of honey");
}

#[test]
fn polar_bear_growls() {
    let certified_bear = bear_witness(PolarBear);
    assert_eq!(certified_bear.growl(), "<menacing polar bear growl>");
}

#[test]
fn session_zero_is_admin() {
    let auth = authenticate(Session { user_id: 0 });
    assert!(matches!(auth, Auth::Admin(Session { user_id: 0 })));
    assert_eq!(get_admin_page(&auth), Ok("<html>admin</html>".to_string()));
}

#[test]
fn session_thousand_is_user() {
    let auth = authenticate(Session { user_id: 1000 });
    assert!(matches!(auth, Auth::User(Session { user_id: 1000 })));
    assert_eq!(get_admin_page(&auth), Err("404".to_string()));
}

#[test]
fn largest_user_id_is_user() {
    let auth = authenticate(Session { user_id: u32::MAX });
    assert!(matches!(auth, Auth::User(Session { user_id: u32::MAX })));
    assert_eq!(get_admin_page(&auth), Err("404".to_string()));
}

#[test]
fn classification_keeps_every_user_id() {
    for id in [0u32, 1, 2, 999, 1000, u32::MAX] {
        match authenticate(Session { user_id: id }) {
            Auth::Admin(s) => {
                assert_eq!(id, 0);
                assert_eq!(s.user_id, id);
            }
            Auth::User(s) => {
                assert_ne!(id, 0);
                assert_eq!(s.user_id, id);
            }
        }
    }
}

#[test]
fn handler_serves_admin_page() {
    assert_eq!(handler(), Ok("<html>admin</html>".to_string()));
}

fn render(localized: Localized<Context>) -> String {
    match localized {
        Localized::English(context) => format!("Hello {}", context.who),
        Localized::French(context) => format!("Bonjour {}", context.who),
        Localized::German(context) => format!("Hallo {}", context.who),
    }
}

#[test]
fn localize_english_renders_hello() {
    let context = Context { who: "World".to_string() };
    assert_eq!(render(context.localize(English)), "Hello World");
}

#[test]
fn localize_french_keeps_payload() {
    let context = Context { who: "Monde".to_string() };
    match context.localize(French) {
        Localized::French(c) => assert_eq!(c.who, "Monde"),
        _ => panic!("expected the French variant"),
    }
}

#[test]
fn localize_english_keeps_empty_payload() {
    let context = Context { who: String::new() };
    match context.localize(English) {
        Localized::English(c) => assert_eq!(c.who, ""),
        _ => panic!("expected the English variant"),
    }
}

#[test]
fn iso_witness_holds_for_listed_pairs() {
    <[u8; 2] as EqualsWitness<[u8; 2], (u8, u8)>>::is_iso();
    <u32 as EqualsWitness<u32, u32>>::is_iso();
    <&str as EqualsWitness<&str, &str>>::is_iso();
    <Vec<[u8; 10]> as EqualsWitness<Vec<[u8; 10]>, Vec<[u8; 10]>>>::is_iso();
    iso_reflexive::<String>();
    iso_reflexive::<Session>();
}

#[test]
fn pair_and_array_convert_both_ways() {
    let pair: (u8, u8) = (4, 2);
    let array: [u8; 2] = <[u8; 2]>::from(pair);
    assert_eq!(array, [4, 2]);
    let back: (u8, u8) = <(u8, u8)>::from(array);
    assert_eq!(back, pair);
}
