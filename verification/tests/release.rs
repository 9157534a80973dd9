use etm::{
    disable_channel, Etm, EtmPeripheral, EtmRegisterBlock, PeripheralUsage, RawEvent, RawTask,
    CHANNEL_COUNT,
};

fn snapshot(regs: &EtmRegisterBlock) -> (u32, u32, Vec<u8>, Vec<u8>) {
    let mut evt = Vec::new();
    let mut task = Vec::new();
    let mut i: usize = 0;
    while i < CHANNEL_COUNT {
        evt.push(regs.event_id(i as u8));
        task.push(regs.task_id(i as u8));
        i += 1;
    }
    (regs.enable_low(), regs.enable_high(), evt, task)
}

#[test]
fn release_clears_only_the_channels_own_bit() {
    let mut etm = Etm::new(EtmPeripheral::new());
    let mut regs = EtmRegisterBlock::new();
    let mut usage = PeripheralUsage::new();
    let event = RawEvent { code: 6 };
    let task = RawTask { code: 8 };

    let keep_low = etm.claim(1).unwrap().setup(&event, &task, &mut regs, &mut usage);
    let keep_high = etm.claim(33).unwrap().setup(&event, &task, &mut regs, &mut usage);
    let released = etm.claim(2).unwrap().setup(&event, &task, &mut regs, &mut usage);
    assert!(regs.is_enabled(2));
    released.release(&mut regs, &mut usage);
    assert!(!regs.is_enabled(2));
    assert!(regs.is_enabled(1));
    assert!(regs.is_enabled(33));
    let _ = (keep_low, keep_high);
}

#[test]
fn configure_then_release_perturbs_no_other_channel() {
    let mut etm = Etm::new(EtmPeripheral::new());
    let mut regs = EtmRegisterBlock::new();
    let mut usage = PeripheralUsage::new();
    let event = RawEvent { code: 21 };
    let task = RawTask { code: 22 };
    let probe_event = RawEvent { code: 13 };
    let probe_task = RawTask { code: 14 };

    let background_low = etm.claim(4).unwrap().setup(&event, &task, &mut regs, &mut usage);
    let background_high = etm.claim(40).unwrap().setup(&event, &task, &mut regs, &mut usage);
    let before = snapshot(&regs);

    let probe = etm.claim(17).unwrap().setup(&probe_event, &probe_task, &mut regs, &mut usage);
    probe.release(&mut regs, &mut usage);

    let after = snapshot(&regs);
    assert_eq!(after.0, before.0);
    assert_eq!(after.1, before.1);
    let mut j: usize = 0;
    while j < CHANNEL_COUNT {
        if j != 17 {
            assert_eq!(after.2[j], before.2[j]);
            assert_eq!(after.3[j], before.3[j]);
        }
        j += 1;
    }
    // the released channel's id fields keep their last written values
    assert_eq!(after.2[17], 13);
    assert_eq!(after.3[17], 14);
    assert!(!regs.is_enabled(17));
    let _ = (background_low, background_high);
}

#[test]
fn disable_channel_clears_the_bit_directly() {
    let mut etm = Etm::new(EtmPeripheral::new());
    let mut regs = EtmRegisterBlock::new();
    let mut usage = PeripheralUsage::new();
    let event = RawEvent { code: 1 };
    let task = RawTask { code: 1 };

    let _kept = etm.claim(5).unwrap().setup(&event, &task, &mut regs, &mut usage);
    let _victim = etm.claim(44).unwrap().setup(&event, &task, &mut regs, &mut usage);
    assert!(regs.is_enabled(44));
    disable_channel(44, &mut regs);
    assert!(!regs.is_enabled(44));
    assert!(regs.is_enabled(5));
    assert_eq!(regs.event_id(44), 1);
}

#[test]
fn releasing_into_an_idle_count_stays_at_zero() {
    let mut donor = PeripheralUsage::new();
    let mut idle = PeripheralUsage::new();
    let token = donor.acquire();
    assert_eq!(donor.count(), 1);
    idle.release(token);
    assert_eq!(idle.count(), 0);
}
