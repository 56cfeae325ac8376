use epoll::flags::{
    EPOLLERR, EPOLLET, EPOLLEXCLUSIVE, EPOLLHUP, EPOLLIN, EPOLLONESHOT, EPOLLOUT, EPOLLPRI,
    EPOLLRDHUP, EPOLLWAKEUP,
};
use epoll::Events;

#[test]
fn from_bits_to_bits_round_trips_known_flags() {
    let combos = vec![
        0u32,
        EPOLLIN,
        EPOLLOUT,
        EPOLLIN | EPOLLOUT,
        EPOLLIN | EPOLLET,
        EPOLLIN | EPOLLOUT | EPOLLPRI | EPOLLRDHUP,
        EPOLLERR | EPOLLHUP,
        EPOLLWAKEUP | EPOLLONESHOT | EPOLLEXCLUSIVE,
        EPOLLIN | EPOLLOUT | EPOLLERR | EPOLLHUP | EPOLLET | EPOLLONESHOT,
    ];
    for bits in combos {
        let f = Events::from_bits(bits);
        assert_eq!(f.bits(), bits);
        assert_eq!(Events::from_bits(f.bits()), f);
    }
}

#[test]
fn from_bits_preserves_unknown_bits() {
    let bits = 0x0040_0860u32;
    let f = Events::from_bits(bits);
    assert_eq!(f.bits(), bits);
    assert_eq!(Events::from_bits(f.bits()), f);
}

#[test]
fn union_is_bitwise_or_and_commutes() {
    let a = Events::from_bits(EPOLLIN | EPOLLET);
    let b = Events::from_bits(EPOLLOUT | EPOLLET);
    assert_eq!(a.union(b).bits(), EPOLLIN | EPOLLOUT | EPOLLET);
    assert_eq!(a.union(b), b.union(a));
}

#[test]
fn intersection_and_difference() {
    let a = Events::from_bits(EPOLLIN | EPOLLOUT | EPOLLET);
    let b = Events::from_bits(EPOLLOUT | EPOLLET | EPOLLHUP);
    assert_eq!(a.intersection(b).bits(), EPOLLOUT | EPOLLET);
    assert_eq!(a.difference(b).bits(), EPOLLIN);
}

#[test]
fn contains_and_empty() {
    let e = Events::empty();
    assert!(e.is_empty());
    assert_eq!(e.bits(), 0);
    let a = Events::from_bits(EPOLLIN | EPOLLOUT);
    assert!(!a.is_empty());
    assert!(a.contains(Events::from_bits(EPOLLIN)));
    assert!(a.contains(Events::from_bits(EPOLLIN | EPOLLOUT)));
    assert!(!a.contains(Events::from_bits(EPOLLIN | EPOLLET)));
    assert!(a.contains(e));
}
