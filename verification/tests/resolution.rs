use parity_params::{
    fatdb_switch_to_bool, mode_switch_to_bool, tracing_switch_to_bool, Algorithm, Mode, Switch,
    UserDefaults,
};

fn user_defaults_with_tracing(first_launch: bool, tracing: bool) -> UserDefaults {
    let mut ud = UserDefaults::default();
    ud.is_first_launch = first_launch;
    ud.tracing = tracing;
    ud
}

fn user_defaults_with_fat_db(first_launch: bool, fat_db: bool) -> UserDefaults {
    let mut ud = UserDefaults::default();
    ud.is_first_launch = first_launch;
    ud.fat_db = fat_db;
    ud
}

#[test]
fn test_switch_to_bool() {
    assert!(!tracing_switch_to_bool(Switch::Off, &user_defaults_with_tracing(true, true)).unwrap());
    assert!(!tracing_switch_to_bool(Switch::Off, &user_defaults_with_tracing(true, false)).unwrap());
    assert!(!tracing_switch_to_bool(Switch::Off, &user_defaults_with_tracing(false, true)).unwrap());
    assert!(!tracing_switch_to_bool(Switch::Off, &user_defaults_with_tracing(false, false)).unwrap());

    assert!(tracing_switch_to_bool(Switch::On, &user_defaults_with_tracing(true, true)).unwrap());
    assert!(tracing_switch_to_bool(Switch::On, &user_defaults_with_tracing(true, false)).unwrap());
    assert!(tracing_switch_to_bool(Switch::On, &user_defaults_with_tracing(false, true)).unwrap());
    assert!(tracing_switch_to_bool(Switch::On, &user_defaults_with_tracing(false, false)).is_err());
}

#[test]
fn user_defaults_of_a_first_launch() {
    let ud = UserDefaults::default();
    assert!(ud.is_first_launch);
    assert_eq!(ud.pruning, Algorithm::OverlayRecent);
    assert!(!ud.tracing);
    assert!(!ud.fat_db);
    assert_eq!(ud.mode, Mode::Active);
}

#[test]
fn tracing_switch_auto_keeps_the_persisted_flag() {
    for first_launch in [false, true].iter() {
        for tracing in [false, true].iter() {
            let ud = user_defaults_with_tracing(*first_launch, *tracing);
            assert_eq!(tracing_switch_to_bool(Switch::Auto, &ud), Ok(*tracing));
        }
    }
}

#[test]
fn tracing_switch_whole_table() {
    for first_launch in [false, true].iter() {
        for tracing in [false, true].iter() {
            for switch in [Switch::On, Switch::Off, Switch::Auto].iter() {
                let ud = user_defaults_with_tracing(*first_launch, *tracing);
                let expected = match (*first_launch, *switch, *tracing) {
                    (false, Switch::On, false) => Err("TraceDB resync required".to_owned()),
                    (_, Switch::On, _) => Ok(true),
                    (_, Switch::Off, _) => Ok(false),
                    (_, Switch::Auto, persisted) => Ok(persisted),
                };
                assert_eq!(tracing_switch_to_bool(*switch, &ud), expected);
            }
        }
    }
}

#[test]
fn tracing_switch_resync_scenario() {
    let kept = user_defaults_with_tracing(false, true);
    assert_eq!(tracing_switch_to_bool(Switch::On, &kept), Ok(true));
    let not_kept = user_defaults_with_tracing(false, false);
    assert_eq!(
        tracing_switch_to_bool(Switch::On, &not_kept),
        Err("TraceDB resync required".to_owned())
    );
}

#[test]
fn tracing_switch_does_not_read_the_fat_db_flag() {
    for fat_db in [false, true].iter() {
        let mut ud = user_defaults_with_tracing(false, false);
        ud.fat_db = *fat_db;
        assert!(tracing_switch_to_bool(Switch::On, &ud).is_err());
        assert_eq!(tracing_switch_to_bool(Switch::Auto, &ud), Ok(false));
        ud.tracing = true;
        assert_eq!(tracing_switch_to_bool(Switch::On, &ud), Ok(true));
    }
}

#[test]
fn fatdb_switch_whole_table() {
    for first_launch in [false, true].iter() {
        for fat_db in [false, true].iter() {
            for switch in [Switch::On, Switch::Off, Switch::Auto].iter() {
                let ud = user_defaults_with_fat_db(*first_launch, *fat_db);
                let expected = match (*first_launch, *switch, *fat_db) {
                    (false, Switch::On, false) => Err("FatDB resync required".to_owned()),
                    (_, Switch::On, _) => Ok(true),
                    (_, Switch::Off, _) => Ok(false),
                    (_, Switch::Auto, persisted) => Ok(persisted),
                };
                assert_eq!(fatdb_switch_to_bool(*switch, &ud, Algorithm::Archive), expected);
            }
        }
    }
}

#[test]
fn fatdb_switch_does_not_read_the_algorithm_or_the_tracing_flag() {
    let algorithms = [
        Algorithm::Archive,
        Algorithm::EarlyMerge,
        Algorithm::OverlayRecent,
        Algorithm::RefCounted,
    ];
    for algorithm in algorithms.iter() {
        for tracing in [false, true].iter() {
            let mut ud = user_defaults_with_fat_db(false, false);
            ud.tracing = *tracing;
            assert_eq!(
                fatdb_switch_to_bool(Switch::On, &ud, *algorithm),
                Err("FatDB resync required".to_owned())
            );
            assert_eq!(fatdb_switch_to_bool(Switch::Off, &ud, *algorithm), Ok(false));
            assert_eq!(fatdb_switch_to_bool(Switch::Auto, &ud, *algorithm), Ok(false));
            ud.fat_db = true;
            assert_eq!(fatdb_switch_to_bool(Switch::On, &ud, *algorithm), Ok(true));
            assert_eq!(fatdb_switch_to_bool(Switch::Auto, &ud, *algorithm), Ok(true));
        }
    }
}

#[test]
fn mode_switch_prefers_the_requested_mode() {
    let modes = [Mode::Active, Mode::Passive(300, 3600), Mode::Dark(300), Mode::Off];
    for persisted in modes.iter() {
        let mut ud = UserDefaults::default();
        ud.mode = *persisted;
        assert_eq!(mode_switch_to_bool(None, &ud), Ok(*persisted));
        for asked in modes.iter() {
            assert_eq!(mode_switch_to_bool(Some(*asked), &ud), Ok(*asked));
        }
    }
}
