use etm::{Etm, EtmPeripheral, CHANNEL_COUNT};

#[test]
fn construction_yields_every_channel_once() {
    let mut etm = Etm::new(EtmPeripheral::new());
    let mut i: usize = 0;
    while i < CHANNEL_COUNT {
        let ch = etm.claim(i as u8).expect("every index yields a channel");
        assert_eq!(ch.index() as usize, i);
        i += 1;
    }
}

#[test]
fn claim_is_exclusive() {
    let mut etm = Etm::new(EtmPeripheral::new());
    let first = etm.claim(7);
    assert!(first.is_some());
    let second = etm.claim(7);
    assert!(second.is_none());
}

#[test]
fn claim_out_of_range_is_none() {
    let mut etm = Etm::new(EtmPeripheral::new());
    assert!(etm.claim(CHANNEL_COUNT as u8).is_none());
    assert!(etm.claim(255).is_none());
    assert!(etm.claim(49).is_some());
}
