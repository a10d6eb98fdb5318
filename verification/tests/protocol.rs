use std::cell::Cell;

use iex::example::HasIexMethod;
use iex::example::SayHello;
use iex::flow::Exit;
use iex::flow::Flow;
use iex::imp::iex_forward;
use iex::imp::iex_forward_mapping;
use iex::imp::IexResult;
use iex::imp::Marker;
use iex::mapper::ExceptionMapper;
use iex::outcome::Resolution;
use iex::slot::Slot;
use iex::Outcome;

#[test]
fn direct_success_resolves_unchanged() {
    let outcome: Result<i32, String> = Ok(7);
    assert_eq!(outcome.into_result(), Ok(7));
    let outcome: Result<i32, String> = Ok(7);
    match outcome.resolve() {
        Resolution::Settled(r) => assert_eq!(r, Ok(7)),
        Resolution::Rethrown(_) => panic!("a direct outcome cannot rethrow"),
    }
}

#[test]
fn direct_failure_resolves_unchanged() {
    let outcome: Result<i32, String> = Err("boom".to_string());
    assert_eq!(outcome.into_result(), Err("boom".to_string()));
}

#[test]
fn deferred_failure_roundtrip_is_lossless() {
    let outcome = IexResult::<i32, String, _>::new(|_m: Marker<String>, slot: Slot<String>| {
        Flow::raise("boom".to_string(), slot)
    });
    assert_eq!(outcome.into_result(), Err("boom".to_string()));
}

#[test]
fn deferred_success_needs_no_slot() {
    let outcome =
        IexResult::<i32, String, _>::new(|_m: Marker<String>, slot: Slot<String>| {
            Flow::success(41, slot)
        });
    assert_eq!(outcome.into_result(), Ok(41));
}

#[test]
fn map_err_matches_eager_mapping() {
    let make = || {
        IexResult::<i32, i32, _>::new(|_m: Marker<i32>, slot: Slot<i32>| Flow::raise(5, slot))
    };
    let deferred = Outcome::map_err(make(), |e: i32| format!("err {e}")).into_result();
    let eager = make().into_result().map_err(|e| format!("err {e}"));
    assert_eq!(deferred, eager);
    assert_eq!(deferred, Err("err 5".to_string()));
}

#[test]
fn identity_forwarding_leaves_payload_untouched() {
    // Inner and outer error types are identical, so the boundary operator's
    // identity path applies: it takes no conversion function at all.
    let outer = IexResult::<i32, &'static str, _>::new(
        |m: Marker<&'static str>, slot: Slot<&'static str>| {
            let inner: Result<i32, &'static str> = Err("original");
            iex_forward(inner, m, slot)
        },
    );
    assert_eq!(outer.into_result(), Err("original"));
}

#[test]
fn identity_forwarding_passes_success_through() {
    let outer = IexResult::<i32, &'static str, _>::new(
        |m: Marker<&'static str>, slot: Slot<&'static str>| {
            let inner: Result<i32, &'static str> = Ok(12);
            iex_forward(inner, m, slot)
        },
    );
    assert_eq!(outer.into_result(), Ok(12));
}

#[test]
fn conversion_runs_exactly_once_on_failure() {
    let count = Cell::new(0);
    let outcome =
        IexResult::<i32, i32, _>::new(|_m: Marker<i32>, slot: Slot<i32>| Flow::raise(3, slot));
    let mapped = Outcome::map_err(outcome, |e: i32| {
        count.set(count.get() + 1);
        e + 100
    });
    assert_eq!(mapped.into_result(), Err(103));
    assert_eq!(count.get(), 1);
}

#[test]
fn conversion_does_not_run_on_success() {
    let count = Cell::new(0);
    let outcome =
        IexResult::<i32, i32, _>::new(|_m: Marker<i32>, slot: Slot<i32>| Flow::success(9, slot));
    let mapped = Outcome::map_err(outcome, |e: i32| {
        count.set(count.get() + 1);
        e
    });
    assert_eq!(mapped.into_result(), Ok(9));
    assert_eq!(count.get(), 0);
}

#[test]
fn chained_forwarding_applies_conversions_outermost_last() {
    // Three nested calls; the innermost fails with 5, the middle frame
    // converts with f, the outermost with g: the boundary must see g(f(5)).
    let outer = IexResult::<u8, Vec<String>, _>::new(
        |m: Marker<Vec<String>>, slot: Slot<Vec<String>>| {
            let middle =
                IexResult::<u8, String, _>::new(|m2: Marker<String>, s2: Slot<String>| {
                    let innermost = IexResult::<u8, i32, _>::new(
                        |_m3: Marker<i32>, s3: Slot<i32>| Flow::raise(5, s3),
                    );
                    iex_forward_mapping(innermost, m2, s2, |e: i32| format!("f({e})"))
                });
            iex_forward_mapping(middle, m, slot, |s: String| vec![s, "g".to_string()])
        },
    );
    assert_eq!(
        outer.into_result(),
        Err(vec!["f(5)".to_string(), "g".to_string()])
    );
}

#[test]
fn chained_map_err_applies_conversions_outermost_last() {
    let innermost =
        IexResult::<u8, i32, _>::new(|_m: Marker<i32>, s: Slot<i32>| Flow::raise(5, s));
    let middle = Outcome::map_err(innermost, |e: i32| format!("f({e})"));
    let outer = Outcome::map_err(middle, |s: String| format!("g({s})"));
    assert_eq!(outer.into_result(), Err("g(f(5))".to_string()));
}

#[test]
fn foreign_signal_reescapes_boundary() {
    let outcome = IexResult::<i32, String, _>::new(|_m: Marker<String>, slot: Slot<String>| {
        Flow::foreign(77, slot)
    });
    match outcome.resolve() {
        Resolution::Rethrown(p) => assert_eq!(p, 77),
        Resolution::Settled(_) => {
            panic!("a foreign signal must not be caught as a failure value")
        }
    }
}

#[test]
fn foreign_signal_passes_converting_frame_unconverted() {
    let count = Cell::new(0);
    let outcome =
        IexResult::<i32, i32, _>::new(|_m: Marker<i32>, slot: Slot<i32>| Flow::foreign(9, slot));
    let mapped = Outcome::map_err(outcome, |e: i32| {
        count.set(count.get() + 1);
        e
    });
    match mapped.resolve() {
        Resolution::Rethrown(p) => assert_eq!(p, 9),
        Resolution::Settled(_) => panic!("the converting frame must forward the foreign signal"),
    }
    assert_eq!(count.get(), 0);
}

#[test]
fn nested_propagation_preserves_outer_payload() {
    // The conversion function itself performs a fallible call with its own
    // boundary and slot use; the outer payload must come through untouched.
    let outcome =
        IexResult::<i32, i32, _>::new(|_m: Marker<i32>, slot: Slot<i32>| Flow::raise(41, slot));
    let mapped = Outcome::map_err(outcome, |outer_err: i32| {
        let inner = IexResult::<i32, String, _>::new(|_m: Marker<String>, s: Slot<String>| {
            Flow::raise("transient".to_string(), s)
        });
        assert_eq!(inner.into_result(), Err("transient".to_string()));
        outer_err + 1
    });
    assert_eq!(mapped.into_result(), Err(42));
}

#[test]
fn slot_write_then_read_roundtrip() {
    let mut slot: Slot<i32> = Slot::new();
    slot.write(Some(5));
    assert_eq!(slot.read(), Some(5));
    assert_eq!(slot.read(), None);
}

#[test]
fn slot_write_none_clears() {
    let mut slot: Slot<i32> = Slot::new();
    slot.write(Some(5));
    slot.write(None);
    assert_eq!(slot.read(), None);
}

#[test]
fn slot_recast_keeps_cell_empty() {
    let slot: Slot<i32> = Slot::new();
    let mut retyped: Slot<String> = slot.recast();
    assert_eq!(retyped.read(), None);
}

#[test]
fn flow_unpack_returns_exit_and_slot() {
    let slot: Slot<&'static str> = Slot::new();
    let flow: Flow<i32, &'static str> = Flow::raise("pending", slot);
    let (exit, mut caught) = flow.unpack();
    assert!(matches!(exit, Exit::Raised));
    assert_eq!(caught.read(), Some("pending"));
}

#[test]
fn flow_from_raised_carries_converted_payload() {
    let mut slot: Slot<u64> = Slot::new();
    slot.write(Some(10));
    let flow: Flow<i32, u64> = Flow::from_raised(slot);
    let (exit, mut caught) = flow.unpack();
    assert!(matches!(exit, Exit::Raised));
    assert_eq!(caught.read(), Some(10));
}

#[test]
fn mapper_fire_converts_pending_payload() {
    let mut slot: Slot<i32> = Slot::new();
    slot.write(Some(2));
    let guard = ExceptionMapper::new(|e: i32| e * 10);
    let mut out = guard.fire(slot);
    assert_eq!(out.read(), Some(20));
}

#[test]
fn mapper_fire_on_empty_cell_runs_no_conversion() {
    let count = Cell::new(0);
    let guard = ExceptionMapper::new(|e: i32| {
        count.set(count.get() + 1);
        e
    });
    let slot: Slot<i32> = Slot::new();
    let mut out: Slot<i32> = guard.fire(slot);
    assert_eq!(out.read(), None);
    assert_eq!(count.get(), 0);
}

#[test]
fn mapper_swallow_discards_conversion_unrun() {
    let count = Cell::new(0);
    let guard = ExceptionMapper::new(|e: i32| {
        count.set(count.get() + 1);
        e
    });
    guard.swallow();
    assert_eq!(count.get(), 0);
}

#[test]
fn add_computes_checked_sum() {
    assert_eq!(iex::example::add(2, 3), Ok(5));
    assert_eq!(iex::example::add(-2, 3), Ok(1));
}

#[test]
fn add_reports_wrapped_sum_on_overflow() {
    assert_eq!(iex::example::add(i32::MAX, 1), Err(i32::MIN));
    assert_eq!(iex::example::add(i32::MIN, -1), Err(i32::MAX));
}

#[test]
fn iex_method_succeeds() {
    assert_eq!(HasIexMethod::iex_method(), Ok(()));
}

#[test]
fn say_hello_string_impl() {
    assert_eq!("hi".to_string().provided_method(), Ok("hi".to_string()));
    assert_eq!("hi".to_string().required_method(), Ok(()));
}
