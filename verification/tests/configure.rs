use etm::{
    bank_and_bit, Etm, EtmPeripheral, EtmRegisterBlock, PeripheralUsage, RawEvent, RawTask,
    CHANNEL_COUNT,
};

#[test]
fn configure_channel_zero_writes_ids_and_low_bit() {
    let mut etm = Etm::new(EtmPeripheral::new());
    let mut regs = EtmRegisterBlock::new();
    let mut usage = PeripheralUsage::new();
    let event = RawEvent { code: 5 };
    let task = RawTask { code: 9 };

    let ch = etm.claim(0).unwrap();
    let configured = ch.setup(&event, &task, &mut regs, &mut usage);
    assert_eq!(regs.enable_low() & 1, 1);
    assert_eq!(regs.enable_low(), 1);
    assert_eq!(regs.enable_high(), 0);
    assert_eq!(regs.event_id(0), 5);
    assert_eq!(regs.task_id(0), 9);

    configured.release(&mut regs, &mut usage);
    assert_eq!(regs.enable_low() & 1, 0);
    assert_eq!(regs.enable_low(), 0);
}

#[test]
fn configure_channel_32_sets_high_bank_bit_zero() {
    let mut etm = Etm::new(EtmPeripheral::new());
    let mut regs = EtmRegisterBlock::new();
    let mut usage = PeripheralUsage::new();
    let event = RawEvent { code: 1 };
    let task = RawTask { code: 2 };

    let ch = etm.claim(32).unwrap();
    let _configured = ch.setup(&event, &task, &mut regs, &mut usage);
    assert_eq!(regs.enable_high(), 1);
    assert_eq!(regs.enable_low(), 0);
    let (bank, bit) = bank_and_bit(32);
    assert_eq!(bank, 1);
    assert_eq!(bit, 0);
}

#[test]
fn enable_bit_matches_bank_and_offset_for_each_channel() {
    let mut etm = Etm::new(EtmPeripheral::new());
    let mut regs = EtmRegisterBlock::new();
    let mut usage = PeripheralUsage::new();
    let event = RawEvent { code: 3 };
    let task = RawTask { code: 4 };

    let mut guards = Vec::new();
    let mut i: usize = 0;
    while i < CHANNEL_COUNT {
        let ch = etm.claim(i as u8).unwrap();
        guards.push(ch.setup(&event, &task, &mut regs, &mut usage));
        let (bank, bit) = bank_and_bit(i as u8);
        assert_eq!(bank, if i < 32 { 0 } else { 1 });
        assert_eq!(bit as usize, i % 32);
        let word = if bank == 0 { regs.enable_low() } else { regs.enable_high() };
        assert_eq!((word >> bit) & 1, 1);
        assert!(regs.is_enabled(i as u8));
        i += 1;
    }
    assert_eq!(regs.enable_low(), u32::MAX);
    assert_eq!(regs.enable_high(), (1u32 << 18) - 1);

    for guard in guards {
        guard.release(&mut regs, &mut usage);
    }
    assert_eq!(regs.enable_low(), 0);
    assert_eq!(regs.enable_high(), 0);
}

#[test]
fn configure_leaves_other_id_registers_untouched() {
    let mut etm = Etm::new(EtmPeripheral::new());
    let mut regs = EtmRegisterBlock::new();
    let mut usage = PeripheralUsage::new();
    let event = RawEvent { code: 7 };
    let task = RawTask { code: 11 };

    let ch = etm.claim(3).unwrap();
    let _configured = ch.setup(&event, &task, &mut regs, &mut usage);
    assert_eq!(regs.event_id(3), 7);
    assert_eq!(regs.task_id(3), 11);
    let mut j: usize = 0;
    while j < CHANNEL_COUNT {
        if j != 3 {
            assert_eq!(regs.event_id(j as u8), 0);
            assert_eq!(regs.task_id(j as u8), 0);
            assert!(!regs.is_enabled(j as u8));
        }
        j += 1;
    }
}

#[test]
fn usage_count_follows_configurations() {
    let mut etm = Etm::new(EtmPeripheral::new());
    let mut regs = EtmRegisterBlock::new();
    let mut usage = PeripheralUsage::new();
    let event = RawEvent { code: 0 };
    let task = RawTask { code: 0 };

    assert_eq!(usage.count(), 0);
    let a = etm.claim(1).unwrap().setup(&event, &task, &mut regs, &mut usage);
    assert_eq!(usage.count(), 1);
    let b = etm.claim(2).unwrap().setup(&event, &task, &mut regs, &mut usage);
    assert_eq!(usage.count(), 2);
    a.release(&mut regs, &mut usage);
    assert_eq!(usage.count(), 1);
    b.release(&mut regs, &mut usage);
    assert_eq!(usage.count(), 0);
}
