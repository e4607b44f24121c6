use sbi_spec::binary::SbiRet;
use sbi_susp::platform::RamSuspend;
use sbi_susp::platform::resume_entry;
use sbi_susp::susp::Susp;

fn platform() -> RamSuspend {
    RamSuspend {
        resume_lo: 0x8000_0000,
        resume_hi: 0x8020_0000,
        wakeup_device: true,
        other_harts_stopped: true,
    }
}

fn configurations() -> Vec<RamSuspend> {
    let mut v = Vec::new();
    for wakeup_device in [false, true] {
        for other_harts_stopped in [false, true] {
            v.push(RamSuspend {
                resume_lo: 0x8000_0000,
                resume_hi: 0x8020_0000,
                wakeup_device,
                other_harts_stopped,
            });
        }
    }
    v
}

fn inputs() -> Vec<(u32, usize, usize)> {
    vec![
        (0, 0x8000_0000, 0),
        (0, 0x8000_0000, 0xDEAD_BEEF),
        (0, 0x1000, 7),
        (5, 0x8000_0000, 1),
        (0x7fff_ffff, 0x8000_0000, 2),
        (0x8000_0000, 0x8000_0000, 3),
        (0xffff_ffff, 0, usize::MAX),
    ]
}

#[test]
fn suspend_to_ram_succeeds_and_resume_context_is_fixed() {
    let b = platform();
    let r = b.system_suspend(0, 0x8000_0000, 0xDEAD_BEEF);
    assert_eq!(r, SbiRet::success(0));

    let ctx = resume_entry(3, 0xDEAD_BEEF);
    assert_eq!(ctx.satp, 0);
    assert!(!ctx.sie);
    assert_eq!(ctx.a0, 3);
    assert_eq!(ctx.a1, 0xDEAD_BEEF);
}

#[test]
fn reserved_sleep_type_is_invalid_param() {
    let b = platform();
    assert_eq!(b.system_suspend(0x0000_0005, 0x8000_0000, 0), SbiRet::invalid_param());
}

#[test]
fn unimplemented_platform_sleep_type_is_invalid_param() {
    let b = platform();
    assert_eq!(b.system_suspend(0x8000_0001, 0x8000_0000, 0), SbiRet::invalid_param());
}

#[test]
fn bad_resume_addr_is_invalid_address() {
    let b = platform();
    assert_eq!(b.system_suspend(0, 0x1000, 0), SbiRet::invalid_address());
    assert_eq!(b.system_suspend(0, 0x8020_0000, 0), SbiRet::invalid_address());
}

#[test]
fn running_harts_deny_the_request() {
    let mut b = platform();
    b.other_harts_stopped = false;
    assert_eq!(b.system_suspend(0, 0x8000_0000, 0), SbiRet::denied());
}

#[test]
fn missing_wakeup_device_is_not_supported() {
    let mut b = platform();
    b.wakeup_device = false;
    assert_eq!(b.system_suspend(0, 0x8000_0000, 0), SbiRet::not_supported());
}

#[test]
fn backend_probes_available() {
    let b = platform();
    assert_eq!(b._rustsbi_probe(), sbi_spec::base::UNAVAILABLE_EXTENSION + 1);
}

#[test]
fn empty_slot_is_not_supported_and_probes_unavailable() {
    let slot: Option<RamSuspend> = None;
    for (sleep_type, resume_addr, opaque) in inputs() {
        assert_eq!(slot.system_suspend(sleep_type, resume_addr, opaque), SbiRet::not_supported());
    }
    assert_eq!(slot._rustsbi_probe(), sbi_spec::base::UNAVAILABLE_EXTENSION);
}

#[test]
fn reference_matches_backend() {
    for b in configurations() {
        for (sleep_type, resume_addr, opaque) in inputs() {
            assert_eq!(
                (&b).system_suspend(sleep_type, resume_addr, opaque),
                b.system_suspend(sleep_type, resume_addr, opaque),
            );
        }
        assert_eq!((&b)._rustsbi_probe(), b._rustsbi_probe());
    }
}

#[test]
fn populated_slot_matches_backend() {
    for b in configurations() {
        let slot: Option<RamSuspend> = Some(b);
        for (sleep_type, resume_addr, opaque) in inputs() {
            assert_eq!(
                slot.system_suspend(sleep_type, resume_addr, opaque),
                b.system_suspend(sleep_type, resume_addr, opaque),
            );
        }
        assert_eq!(slot._rustsbi_probe(), b._rustsbi_probe());
    }
}

#[test]
fn probe_sentinels_are_adjacent() {
    let available = platform()._rustsbi_probe();
    let unavailable = None::<RamSuspend>._rustsbi_probe();
    assert_eq!(unavailable, sbi_spec::base::UNAVAILABLE_EXTENSION);
    assert_eq!(available, unavailable + 1);
}
