use svf_filter::bank::FilterBank;

#[derive(Clone, Copy, Debug, PartialEq)]
struct Channel {
    ic1eq: f32,
    ic2eq: f32,
    cutoff: u32,
}

const FRESH: Channel = Channel {
    ic1eq: 0.0,
    ic2eq: 0.0,
    cutoff: 440,
};

#[test]
fn new_bank_is_empty() {
    let b: FilterBank<Channel> = FilterBank::new();
    assert_eq!(b.len(), 0);
}

#[test]
fn resize_grow_then_shrink_keeps_channel_state() {
    let mut b = FilterBank::new();
    b.resize(2, FRESH);
    assert_eq!(b.len(), 2);
    assert_eq!(b.get(1), FRESH);
    let busy = Channel {
        ic1eq: 0.25,
        ic2eq: -0.5,
        cutoff: 440,
    };
    b.set(0, busy);
    b.resize(1, FRESH);
    assert_eq!(b.len(), 1);
    assert_eq!(b.get(0), busy);
}

#[test]
fn resize_grow_fills_with_fresh() {
    let mut b = FilterBank::new();
    b.resize(1, FRESH);
    let busy = Channel {
        ic1eq: 1.0,
        ic2eq: 2.0,
        cutoff: 100,
    };
    b.set(0, busy);
    b.resize(3, FRESH);
    assert_eq!(b.len(), 3);
    assert_eq!(b.get(0), busy);
    assert_eq!(b.get(1), FRESH);
    assert_eq!(b.get(2), FRESH);
    b.resize(0, FRESH);
    assert_eq!(b.len(), 0);
}

#[test]
fn update_all_applies_to_every_channel() {
    let mut b = FilterBank::new();
    b.resize(2, FRESH);
    let r: Result<(), ()> = b.try_update_all(|c: Channel| {
        Ok(Channel {
            cutoff: c.cutoff * 2,
            ..c
        })
    });
    assert_eq!(r, Ok(()));
    assert_eq!(b.get(0).cutoff, 880);
    assert_eq!(b.get(1).cutoff, 880);
}

#[test]
fn update_all_failure_changes_no_channel() {
    let mut b = FilterBank::new();
    b.resize(3, FRESH);
    b.set(2, Channel { cutoff: 0, ..FRESH });
    let r = b.try_update_all(|c: Channel| {
        if c.cutoff == 0 {
            Err("zero cutoff")
        } else {
            Ok(Channel {
                cutoff: c.cutoff + 1,
                ..c
            })
        }
    });
    assert_eq!(r, Err("zero cutoff"));
    assert_eq!(b.get(0), FRESH);
    assert_eq!(b.get(1), FRESH);
    assert_eq!(b.get(2).cutoff, 0);
}
