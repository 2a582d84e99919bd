use pgbridge::error::{
    catch_postgres_error, convert_postgres_error, convert_postgres_error_dtor, convert_rust_panic,
    _PG_fini,
};
use pgbridge::host::{raise_host_error, Control, ErrorData, HostState, Marker, PanicPayload};

fn sample_error(msg: &[u8]) -> ErrorData {
    ErrorData {
        elevel: 20,
        marker: Marker::Host,
        message: msg.to_vec(),
        detail: None,
        hint: Some(b"try again".to_vec()),
        filename: b"sample.c".to_vec(),
        lineno: 17,
    }
}

#[test]
fn normal_return_gives_ok_and_restores_globals() {
    let st = HostState::new();
    let jt = st.jump_target;
    let cs = st.context_stack;
    let cur = st.current;
    let (st1, out) = catch_postgres_error(st, |s: HostState| (s, Control::Return(42i32)));
    match out {
        Control::Return(Ok(v)) => assert_eq!(v, 42),
        _ => panic!("expected a normal Ok return"),
    }
    assert_eq!(st1.jump_target, jt);
    assert_eq!(st1.context_stack, cs);
    assert_eq!(st1.current, cur);
    assert!(st1.pending_error.is_none());
}

#[test]
fn raised_error_gives_err_and_restores_globals() {
    let st = HostState::new();
    let jt = st.jump_target;
    let cs = st.context_stack;
    let data = sample_error(b"disk on fire");
    let raised = data.clone();
    let (st1, out) = catch_postgres_error(st, move |s: HostState| {
        raise_host_error::<i32>(s, raised)
    });
    match out {
        Control::Return(Err(e)) => {
            assert_eq!(e.data, data);
            assert!(st1.arenas.cells[e.arena].alive);
        }
        _ => panic!("expected a captured error"),
    }
    assert_eq!(st1.jump_target, jt);
    assert_eq!(st1.context_stack, cs);
    assert!(st1.pending_error.is_none());
}

#[test]
fn rethrown_error_is_recaptured_by_enclosing_scope() {
    let st = HostState::new();
    let data = sample_error(b"original diagnostics");
    let raised = data.clone();
    let (st1, out) = catch_postgres_error(st, move |s: HostState| {
        raise_host_error::<i32>(s, raised)
    });
    let captured = match out {
        Control::Return(Err(e)) => e,
        _ => panic!("expected a captured error"),
    };
    let freed_arena = captured.arena;
    let (st2, out2) = catch_postgres_error(st1, move |s: HostState| captured.rethrow::<i32>(s));
    match out2 {
        Control::Return(Err(e2)) => {
            assert_eq!(e2.data, data);
            // the first capture's dedicated context was released on re-throw
            assert!(!st2.arenas.cells[freed_arena].alive);
        }
        _ => panic!("expected the re-thrown error to be captured again"),
    }
    assert!(st2.pending_error.is_none());
}

#[test]
fn round_trip_panic_payload_is_the_original() {
    let st = HostState::new();
    let (st1, out) = convert_postgres_error(st, |s: HostState| {
        convert_rust_panic(s, |s2: HostState| {
            (
                s2,
                Control::<i32>::GuestUnwind(PanicPayload::Opaque(b"boom".to_vec())),
            )
        })
    });
    match out {
        Control::GuestUnwind(p) => {
            assert_eq!(p, PanicPayload::Opaque(b"boom".to_vec()));
        }
        _ => panic!("expected the original unwind to resume"),
    }
    assert!(st1.panic_slot.is_none());
    assert!(st1.pending_error.is_none());
}

#[test]
fn genuine_host_error_becomes_inspectable_panic_payload() {
    let st = HostState::new();
    let data = sample_error(b"division by zero");
    let raised = data.clone();
    let (st1, out) = convert_postgres_error(st, move |s: HostState| {
        raise_host_error::<i32>(s, raised)
    });
    match out {
        Control::GuestUnwind(PanicPayload::RoundTrippedHostError(e)) => {
            assert_eq!(e.data, data);
            assert!(st1.arenas.cells[e.arena].alive);
        }
        _ => panic!("expected a new guest panic carrying the captured error"),
    }
}

#[test]
fn second_panic_payload_replaces_the_first() {
    let st = HostState::new();
    let (st1, out1) = convert_rust_panic(st, |s: HostState| {
        (
            s,
            Control::<i32>::GuestUnwind(PanicPayload::Opaque(b"first".to_vec())),
        )
    });
    assert!(matches!(out1, Control::HostJump));
    assert_eq!(st1.panic_slot, Some(PanicPayload::Opaque(b"first".to_vec())));
    // the first payload was never consumed; a second panic replaces it, which
    // is what frees it
    let (st2, out2) = convert_rust_panic(st1, |s: HostState| {
        (
            s,
            Control::<i32>::GuestUnwind(PanicPayload::Opaque(b"second".to_vec())),
        )
    });
    assert!(matches!(out2, Control::HostJump));
    assert_eq!(st2.panic_slot, Some(PanicPayload::Opaque(b"second".to_vec())));
}

#[test]
fn only_the_innermost_scope_sees_the_error() {
    let st = HostState::new();
    let outer_target = st.jump_target;
    let data = sample_error(b"innermost failure");
    let (st1, out) = catch_postgres_error(st, move |s: HostState| {
        // middle scope; `s` runs under the outer scope's installed target
        let middle_target = s.jump_target;
        let (s_mid, mid_out) = catch_postgres_error(s, move |s2: HostState| {
            // innermost scope, around the raising computation
            let inner_target = s2.jump_target;
            let (s_in, in_out) = catch_postgres_error(s2, move |s3: HostState| {
                raise_host_error::<i32>(s3, data)
            });
            let inner_saw_err = matches!(in_out, Control::Return(Err(_)));
            // innermost-first restore: the inner scope's own snapshot is back
            assert_eq!(s_in.jump_target, inner_target);
            (s_in, Control::Return(inner_saw_err))
        });
        let middle_saw_ok = matches!(mid_out, Control::Return(Ok(true)));
        assert_eq!(s_mid.jump_target, middle_target);
        (s_mid, Control::Return(middle_saw_ok))
    });
    match out {
        Control::Return(Ok(outer_value)) => assert!(outer_value),
        _ => panic!("the outer scope must see a normal return"),
    }
    assert_eq!(st1.jump_target, outer_target);
    assert!(st1.pending_error.is_none());
}

#[test]
fn destructor_variant_discards_while_unwinding() {
    let st = HostState::new();
    let data = sample_error(b"failure inside a destructor");
    let (st1, out) = convert_postgres_error_dtor(
        st,
        move |s: HostState| raise_host_error::<()>(s, data),
        true,
    );
    // no abort, no second propagation event: a plain return, slot untouched
    assert!(matches!(out, Control::Return(())));
    assert!(st1.pending_error.is_none());
    assert!(st1.panic_slot.is_none());
}

#[test]
fn destructor_variant_converts_when_not_unwinding() {
    let st = HostState::new();
    let data = sample_error(b"failure inside a destructor");
    let expected = data.clone();
    let (_st1, out) = convert_postgres_error_dtor(
        st,
        move |s: HostState| raise_host_error::<()>(s, data),
        false,
    );
    match out {
        Control::GuestUnwind(PanicPayload::RoundTrippedHostError(e)) => {
            assert_eq!(e.data, expected)
        }
        _ => panic!("without an unwind in progress the error converts as usual"),
    }
}

#[test]
fn module_unload_releases_a_parked_payload() {
    let st = HostState::new();
    let (st1, _) = convert_rust_panic(st, |s: HostState| {
        (
            s,
            Control::<i32>::GuestUnwind(PanicPayload::Opaque(b"leftover".to_vec())),
        )
    });
    let mut st1 = st1;
    st1.pending_error = None;
    assert!(st1.panic_slot.is_some());
    let st2 = _PG_fini(st1);
    assert!(st2.panic_slot.is_none());
}

#[test]
fn captured_error_exposes_its_diagnostics() {
    let st = HostState::new();
    let data = sample_error(b"look here");
    let raised = data.clone();
    let (_st1, out) = catch_postgres_error(st, move |s: HostState| {
        raise_host_error::<i32>(s, raised)
    });
    let e = match out {
        Control::Return(Err(e)) => e,
        _ => panic!("expected a captured error"),
    };
    assert_eq!(e.severity(), 20);
    assert_eq!(e.message(), &b"look here".to_vec());
    assert_eq!(e.detail(), &None);
    assert_eq!(e.hint(), &Some(b"try again".to_vec()));
    assert!(!e.is_guest_panic());
}

#[test]
fn raise_sets_the_pending_record() {
    let st = HostState::new();
    let data = sample_error(b"to be pending");
    let expected = data.clone();
    let (st1, out) = raise_host_error::<i32>(st, data);
    assert!(matches!(out, Control::HostJump));
    assert_eq!(st1.pending_error, Some(expected));
}
