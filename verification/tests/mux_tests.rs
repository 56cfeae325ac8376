use epoll::flags::{EPOLLERR, EPOLLHUP, EPOLLIN, EPOLLOUT};
use epoll::{CreateError, CtlError, Data, Event, Events, InvalidCapacity, EPoll, Ptr, U32, U64};

fn fresh_pipe() -> (i32, i32) {
    nix::unistd::pipe().expect("pipe")
}

fn release(fd: i32) {
    let _ = nix::unistd::close(fd);
}

#[test]
fn create_rejects_capacity_that_is_not_positive() {
    assert!(matches!(
        EPoll::<U64>::create(false, 0),
        Err(CreateError::EINVAL)
    ));
    assert!(matches!(
        EPoll::<U64>::create(true, -5),
        Err(CreateError::EINVAL)
    ));
}

#[test]
fn scenario_tag64_register_wait_deregister_close() {
    let mut ep = EPoll::<U64>::create(false, 4).expect("create");
    let (r, w) = fresh_pipe();

    ep.ctl_add(r, Event::new(Events::from_bits(EPOLLIN), Data::new_u64(42)))
        .expect("register");

    let idle = ep.wait(0).expect("wait on idle descriptor");
    assert_eq!(idle.len(), 0);

    nix::unistd::write(w, b"x").expect("make readable");

    let ready = ep.wait(-1).expect("wait");
    assert_eq!(ready.len(), 1);
    let got = ready[0].events().bits();
    assert!(got & EPOLLIN != 0);
    assert_eq!(got & !(EPOLLIN | EPOLLERR | EPOLLHUP), 0);
    assert_eq!(ready[0].data()._u64(), 42);

    let rec = ep.ctl_del(r).expect("deregister");
    assert_eq!(rec.events().bits(), EPOLLIN);
    assert_eq!(rec.data()._u64(), 42);

    let map = ep.close();
    assert!(map.is_empty());
    release(r);
    release(w);
}

#[test]
fn scenario_owned_payload_modify_returns_previous() {
    let mut ep = EPoll::<Ptr<i32>>::create(false, 2).expect("create");
    let (r, w) = fresh_pipe();

    ep.ctl_add(r, Event::new(Events::from_bits(EPOLLIN), Data::new_ptr(7)))
        .expect("register");
    let prev = ep
        .ctl_mod(r, Event::new(Events::from_bits(EPOLLIN), Data::new_ptr(8)))
        .expect("modify");
    assert_eq!(*prev.into_data().into_inner(), 7);

    let map = ep.close();
    assert_eq!(map.len(), 1);
    for (fd, ev) in map {
        assert_eq!(fd, r);
        assert_eq!(*ev.into_data().into_inner(), 8);
    }
    release(r);
    release(w);
}

#[test]
fn register_twice_fails_and_keeps_prior_registration() {
    let mut ep = EPoll::<U64>::create(false, 2).expect("create");
    let (r, w) = fresh_pipe();

    ep.ctl_add(r, Event::new(Events::from_bits(EPOLLIN), Data::new_u64(1)))
        .expect("register");
    let second = ep.ctl_add(r, Event::new(Events::from_bits(EPOLLOUT), Data::new_u64(2)));
    assert!(matches!(second, Err(CtlError::EEXIST)));

    let stored = ep.get_data().get(&r).expect("still registered");
    assert_eq!(stored.events().bits(), EPOLLIN);
    assert_eq!(stored.data()._u64(), 1);
    ep.close();
    release(r);
    release(w);
}

#[test]
fn modify_and_deregister_unregistered_descriptor_fail() {
    let mut ep = EPoll::<U32>::create(false, 1).expect("create");
    let ev = Event::new(Events::from_bits(EPOLLIN), Data::new_u32(5));
    assert!(matches!(ep.ctl_mod(42, ev), Err(CtlError::ENOENT)));
    assert!(matches!(ep.ctl_del(42), Err(CtlError::ENOENT)));
    assert!(ep.get_data().is_empty());
    ep.close();
}

#[test]
fn register_bad_descriptor_reports_ebadf_and_leaves_table() {
    let mut ep = EPoll::<U64>::create(false, 1).expect("create");
    let ev = Event::new(Events::from_bits(EPOLLIN), Data::new_u64(9));
    assert!(matches!(ep.ctl_add(-1, ev), Err(CtlError::EBADF)));
    assert!(ep.get_data().is_empty());
    ep.close();
}

#[test]
fn register_then_deregister_round_trips_the_record() {
    let mut ep = EPoll::<U64>::create(false, 2).expect("create");
    let (r, w) = fresh_pipe();

    ep.ctl_add(r, Event::new(Events::from_bits(EPOLLIN), Data::new_u64(10)))
        .expect("register");
    let prev = ep
        .ctl_mod(r, Event::new(Events::from_bits(EPOLLOUT), Data::new_u64(11)))
        .expect("modify");
    assert_eq!(prev.data()._u64(), 10);

    let last = ep.ctl_del(r).expect("deregister");
    assert_eq!(last.events().bits(), EPOLLOUT);
    assert_eq!(last.data()._u64(), 11);
    assert!(ep.get_data().is_empty());
    ep.close();
    release(r);
    release(w);
}

#[test]
fn resize_buffer_rejects_zero_and_bounds_wait() {
    let mut ep = EPoll::<U64>::create(false, 8).expect("create");
    assert!(matches!(ep.resize_buffer(0), Err(InvalidCapacity)));
    assert!(matches!(ep.resize_buffer(-3), Err(InvalidCapacity)));

    let mut pipes = Vec::new();
    for tag in 0..3u64 {
        let (r, w) = fresh_pipe();
        ep.ctl_add(r, Event::new(Events::from_bits(EPOLLIN), Data::new_u64(tag)))
            .expect("register");
        nix::unistd::write(w, b"x").expect("make readable");
        pipes.push((r, w));
    }

    ep.resize_buffer(2).expect("resize");
    let ready = ep.wait(0).expect("wait");
    assert!(ready.len() <= 2);
    assert_eq!(ready.len(), 2);
    for ev in &ready {
        assert!(ev.data()._u64() < 3);
        assert!(ev.events().bits() & EPOLLIN != 0);
    }

    ep.close();
    for (r, w) in pipes {
        release(r);
        release(w);
    }
}

#[test]
fn close_returns_exactly_the_registered_records() {
    let mut ep = EPoll::<U64>::create(false, 4).expect("create");
    let (r1, w1) = fresh_pipe();
    let (r2, w2) = fresh_pipe();

    ep.ctl_add(r1, Event::new(Events::from_bits(EPOLLIN), Data::new_u64(100)))
        .expect("register first");
    ep.ctl_add(r2, Event::new(Events::from_bits(EPOLLOUT), Data::new_u64(200)))
        .expect("register second");

    let map = ep.close();
    assert_eq!(map.len(), 2);
    assert_eq!(map.get(&r1).expect("first present").data()._u64(), 100);
    assert_eq!(map.get(&r1).expect("first present").events().bits(), EPOLLIN);
    assert_eq!(map.get(&r2).expect("second present").data()._u64(), 200);
    assert_eq!(
        map.get(&r2).expect("second present").events().bits(),
        EPOLLOUT
    );

    release(r1);
    release(w1);
    release(r2);
    release(w2);
}

#[test]
fn reported_payload_survives_later_changes() {
    let mut ep = EPoll::<U64>::create(false, 4).expect("create");
    let (r, w) = fresh_pipe();

    ep.ctl_add(r, Event::new(Events::from_bits(EPOLLIN), Data::new_u64(1)))
        .expect("register");
    nix::unistd::write(w, b"x").expect("make readable");
    let ready = ep.wait(1000).expect("wait");
    assert_eq!(ready.len(), 1);

    ep.ctl_del(r).expect("deregister");
    assert_eq!(ready[0].data()._u64(), 1);

    ep.close();
    release(r);
    release(w);
}

#[test]
fn normalize_timeout_clamps_negatives_only() {
    assert_eq!(epoll::mux::normalize_timeout(-5), -1);
    assert_eq!(epoll::mux::normalize_timeout(-1), -1);
    assert_eq!(epoll::mux::normalize_timeout(0), 0);
    assert_eq!(epoll::mux::normalize_timeout(250), 250);
}

#[test]
fn reap_types_only_registered_records_in_order() {
    let mut datas = std::collections::HashMap::new();
    datas.insert(5, Event::new(Events::from_bits(EPOLLIN), Data::new_u64(42)));
    datas.insert(7, Event::new(Events::from_bits(EPOLLOUT), Data::new_u64(9)));
    let raw = vec![
        epoll::epoll_event {
            events: EPOLLIN | EPOLLOUT,
            data: 5,
        },
        epoll::epoll_event {
            events: EPOLLIN,
            data: 99,
        },
        epoll::epoll_event {
            events: EPOLLOUT,
            data: 7,
        },
    ];
    let evs = epoll::mux::reap(&datas, &raw);
    assert_eq!(evs.len(), 2);
    assert_eq!(evs[0].data()._u64(), 42);
    assert_eq!(evs[0].events().bits(), EPOLLIN);
    assert_eq!(evs[1].data()._u64(), 9);
    assert_eq!(evs[1].events().bits(), EPOLLOUT);
}
