use this_is_fine::Fine;
use this_is_fine::FineDeref;
use this_is_fine::FineDerefMut;
use this_is_fine::FineExt;
use this_is_fine::FineExtWhereEDebug;
use this_is_fine::FineExtWhereTDebug;
use this_is_fine::FineTranspose;
use this_is_fine::from_inverse;

#[test]
fn from_inverse_with_error_reports_it() {
    let o = from_inverse(5u32, Some("boom"));
    assert!(o.is_err());
    assert!(!o.is_ok());
    assert_eq!(o.err(), Some("boom"));
}

#[test]
fn from_inverse_without_error_is_ok() {
    let o = from_inverse(5u32, None::<&str>);
    assert!(o.is_ok());
    assert!(!o.is_err());
    assert_eq!(o.ok(), Some(5u32));
}

#[test]
fn not_fine_round_trip_reconstructs_ok_outcome() {
    let o = from_inverse(7u32, None::<String>);
    let r = o.not_fine();
    assert_eq!(r, Ok(7u32));
    let rebuilt = match r {
        Ok(v) => from_inverse(v, None::<String>),
        Err(e) => from_inverse(0u32, Some(e)),
    };
    assert_eq!(rebuilt, (7u32, Ok(())));
}

#[test]
fn map_keeps_status() {
    let ok_outcome = from_inverse(10u32, None::<&str>);
    let mapped = ok_outcome.map(|x| x * 2);
    assert!(mapped.is_ok());
    assert_eq!(mapped.fine(), 20u32);

    let err_outcome = from_inverse(10u32, Some("late"));
    let mapped = err_outcome.map(|x| x * 2);
    assert!(mapped.is_err());
}

#[test]
fn map_applies_even_under_error() {
    let o = from_inverse(2u32, Some("partial"));
    let m = o.map(|x| x + 1);
    assert_eq!(m.fine(), 3u32);
}

#[test]
fn map_err_keeps_value() {
    let o = from_inverse(9u32, Some(4u8));
    let m = o.map_err(|e| u16::from(e) + 1);
    assert_eq!(m.fine(), 9u32);

    let o = from_inverse(9u32, Some(4u8));
    let m = o.map_err(|e| u16::from(e) + 1);
    assert_eq!(m.err(), Some(5u16));

    let o = from_inverse(9u32, None::<u8>);
    let m = o.map_err(|e| u16::from(e) + 1);
    assert!(m.is_ok());
    assert_eq!(m.fine(), 9u32);
}

#[test]
fn transpose_swaps_status_layers() {
    let n: Fine<Fine<u8, &str>, u32> = ((3u8, Err("inner")), Ok(()));
    let t = n.transpose();
    assert_eq!(t, ((3u8, Ok(())), Err("inner")));
}

#[test]
fn transpose_twice_is_identity() {
    let n: Fine<Fine<u8, &str>, u32> = ((3u8, Err("inner")), Ok(()));
    assert_eq!(n.transpose().transpose(), n);

    let n: Fine<Fine<u8, &str>, u32> = ((3u8, Ok(())), Err(4u32));
    assert_eq!(n.transpose().transpose(), n);
}

#[test]
fn into_result_keeps_value_on_error() {
    let o = from_inverse("v", Some("e"));
    assert_eq!(o.into_result(), Err(("v", "e")));

    let o = from_inverse("v", None::<&str>);
    assert_eq!(o.into_result(), Ok("v"));
}

#[test]
fn fine_accepts_partial_failure() {
    assert_eq!(from_inverse(42, None::<String>).fine(), 42);
}

#[test]
fn not_fine_escalates_discarding_value() {
    let r = from_inverse("x", Some("boom")).not_fine();
    assert_eq!(r, Err("boom"));
}

#[test]
fn ok_discards_value_on_error_but_fine_keeps_it() {
    assert_eq!(from_inverse(vec![1, 2, 3], Some("partial")).ok(), None);
    assert_eq!(from_inverse(vec![1, 2, 3], Some("partial")).fine(), vec![1, 2, 3]);
}

#[test]
fn err_on_ok_outcome_is_none() {
    let o = from_inverse(1u8, None::<String>);
    assert_eq!(o.err(), None);
}

#[test]
fn expect_and_unwrap_return_value_when_no_error() {
    let o = from_inverse(4u8, None::<u8>);
    assert_eq!(o.expect("was fine"), 4u8);
    let o = from_inverse(4u8, None::<u8>);
    assert_eq!(o.unwrap(), 4u8);
}

#[test]
fn expect_err_and_unwrap_err_return_error_when_present() {
    let o = from_inverse(4u8, Some("went sideways"));
    assert_eq!(o.expect_err("had no error"), "went sideways");
    let o = from_inverse(4u8, Some("went sideways"));
    assert_eq!(o.unwrap_err(), "went sideways");
}

#[test]
fn as_ref_leaves_original_intact() {
    let o: Fine<String, String> = (String::from("kept"), Err(String::from("oops")));
    {
        let r = o.as_ref();
        assert_eq!(r.0, "kept");
        assert!(r.is_err());
        match r.1 {
            Err(e) => assert_eq!(e, "oops"),
            Ok(()) => panic!("status should carry the error"),
        }
    }
    assert_eq!(o.fine(), "kept");
}

#[test]
fn as_mut_permits_in_place_mutation() {
    let mut o: Fine<u8, &str> = (1u8, Err("first"));
    {
        let r = o.as_mut();
        *r.0 = 9;
        if let Err(e) = r.1 {
            *e = "second";
        }
    }
    assert_eq!(o, (9u8, Err("second")));
}

#[test]
fn as_deref_borrows_through_the_value() {
    let o: Fine<String, u8> = (String::from("deep"), Err(3u8));
    let r = o.as_deref();
    assert_eq!(r.0, "deep");
    assert_eq!(r.1, Err(&3u8));
    assert_eq!(o.fine(), "deep");
}

#[test]
fn as_deref_mut_borrows_through_the_value() {
    let mut o: Fine<Vec<u8>, u8> = (vec![1, 2], Ok(()));
    {
        let r = o.as_deref_mut();
        r.0[0] = 7;
        assert!(r.1.is_ok());
    }
    assert_eq!(o, (vec![7, 2], Ok(())));
}

#[test]
fn pair_built_directly_behaves_like_from_inverse() {
    let direct: Fine<u8, &str> = (1u8, Ok(()));
    assert_eq!(direct, from_inverse(1u8, None::<&str>));
    let direct: Fine<u8, &str> = (1u8, Err("e"));
    assert_eq!(direct, from_inverse(1u8, Some("e")));
}
