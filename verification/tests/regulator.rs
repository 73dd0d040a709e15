use regmap_hal::error::Error;
use regmap_hal::ncv6336::register::{
    registers, COMMAND, COMMAND_PWMVSEL0, FID_VALUE, FIELD_COUNT, LIMCONF, LIMCONF_IPEAK,
    LIMCONF_TPWTH, PGOOD, PID_VALUE, PROGVSEL0, PROGVSEL1, RID_VALUE,
};
use regmap_hal::ncv6336::{desc, regmap_config, Driver, MIN_UV, N_VOLTAGES, UV_STEP};
use regmap_hal::regmap::access::RW;
use regmap_hal::regmap::desc::{FieldDesc, FieldKind, FieldMode, FieldsDesc};
use regmap_hal::regmap::request::Request;
use regmap_hal::regmap::{CacheType, Config, Regmap};
use regmap_hal::regulator::driver::desc::{place, Desc, LinearRange};
use regmap_hal::regulator::driver::{
    Config as RegulatorConfig, Operations, RegmapHelpers, RegulatorDev, Reply, Status, Step, Type,
};
use regmap_hal::regulator::Mode;
use std::collections::HashMap;

/// A register file that performs requests the way a backend does, with the
/// registers on which every transaction shall fail.
struct Bus {
    regs: HashMap<u32, u32>,
    log: Vec<Request>,
    broken: Vec<u32>,
}

impl Bus {
    fn new() -> Bus {
        Bus { regs: HashMap::new(), log: Vec::new(), broken: Vec::new() }
    }

    fn execute(&mut self, request: Request) -> Result<u32, Error> {
        self.log.push(request);
        let reg = request.reg();
        if self.broken.contains(&reg) {
            return Err(Error::BusError(-110));
        }
        let old = *self.regs.get(&reg).unwrap_or(&0);
        let (new, _) = request.apply(old);
        self.regs.insert(reg, new);
        Ok(new)
    }

    fn reg(&self, reg: u32) -> u32 {
        *self.regs.get(&reg).unwrap_or(&0)
    }
}

fn finish(driver: &mut Driver, rdev: &RegulatorDev, first: Step, bus: &mut Bus) -> Result<Reply, Error> {
    let mut step = first;
    loop {
        match step {
            Step::Issue(request) => {
                let response = bus.execute(request);
                step = driver.advance(rdev, response);
            }
            Step::Done(reply) => return Ok(reply),
            Step::Failed(e) => return Err(e),
        }
    }
}

#[test]
fn chip_declaration_has_fifteen_fields_in_order() {
    let decl = registers().unwrap();
    assert_eq!(decl.count(), FIELD_COUNT);
    assert_eq!(decl.count(), 15);
    for index in 0..15 {
        assert_eq!(decl.field(index).id, index as u32);
    }
    let pid = decl.field(PID_VALUE);
    assert_eq!((pid.range.reg, pid.range.lsb, pid.range.msb), (0x3, 0, 7));
    assert_eq!(pid.mode, FieldMode::ReadOnly);
    let fid = decl.field(FID_VALUE);
    assert_eq!(fid.range.reg, 0x5);
    let mode = decl.field(COMMAND_PWMVSEL0);
    assert_eq!((mode.range.reg, mode.range.lsb, mode.range.msb), (0x14, 7, 7));
    assert_eq!(mode.kind, FieldKind::Bit);
    let tpwth = decl.field(LIMCONF_TPWTH);
    assert_eq!((tpwth.range.reg, tpwth.range.lsb, tpwth.range.msb), (0x16, 4, 5));
    assert_eq!(tpwth.symbols, vec![0, 1, 2, 3]);
    let ipeak = decl.field(LIMCONF_IPEAK);
    assert_eq!((ipeak.range.lsb, ipeak.range.msb), (6, 7));
    assert_eq!(ipeak.kind, FieldKind::Enum);
    assert_eq!(ipeak.policy, RW);
}

#[test]
fn chip_descriptor_matches_the_datasheet() {
    let desc = desc();
    assert_eq!(desc.name, "ncv6336");
    assert_eq!(desc.reg_type, Type::Voltage);
    assert_eq!((desc.enable_reg, desc.enable_mask, desc.enable_val, desc.disable_val), (0x11, 0x80, 0x80, 0));
    assert!(!desc.enable_is_inverted);
    assert_eq!(
        (desc.active_discharge_reg, desc.active_discharge_mask, desc.active_discharge_on, desc.active_discharge_off),
        (0x12, 0x10, 0x10, 0)
    );
    assert_eq!((desc.csel_reg, desc.csel_mask), (0x16, 0xc0));
    assert_eq!(desc.curr_table, vec![3500000, 4000000, 4500000, 5000000]);
    assert_eq!((desc.vsel_reg, desc.vsel_mask), (0x11, 0x7f));
    assert_eq!((desc.min_uv, desc.uv_step, desc.n_voltages, desc.linear_min_sel), (600000, 6250, 128, 0));
    assert_eq!((MIN_UV, UV_STEP, N_VOLTAGES), (600000, 6250, 128));
    assert_eq!((PROGVSEL1, PROGVSEL0, PGOOD, COMMAND, LIMCONF), (0x10, 0x11, 0x12, 0x14, 0x16));
    let config = regmap_config();
    assert_eq!((config.reg_bits, config.val_bits, config.max_register), (8, 8, 0x16));
    assert_eq!(config.cache_type, CacheType::RbTree);
}

#[test]
fn list_voltage_is_linear_in_the_selector() {
    let decl = registers().unwrap();
    let regmap = Regmap::new(regmap_config(), &decl);
    let desc = desc();
    let mut driver = Driver::probe(&regmap, &decl, &desc).unwrap();
    let rdev = driver.rdev().unwrap();
    assert_eq!(driver.list_voltage(&rdev, 0), Step::Done(Reply::Value(600000)));
    assert_eq!(driver.list_voltage(&rdev, 1), Step::Done(Reply::Value(606250)));
    assert_eq!(driver.list_voltage(&rdev, 127), Step::Done(Reply::Value(600000 + 127 * 6250)));
    assert_eq!(driver.list_voltage(&rdev, 127), Step::Done(Reply::Value(1393750)));
    assert_eq!(driver.list_voltage(&rdev, 128), Step::Failed(Error::Unsupported));
    assert_eq!(driver.list_voltage(&rdev, u32::MAX), Step::Failed(Error::Unsupported));
    assert!(driver.is_idle());
}

#[test]
fn list_voltage_below_the_lowest_selector_is_zero() {
    let desc = Desc::new("ldo", Type::Voltage).with_linear_mapping(1, 0xff, 800000, 50000, 16, 4);
    assert_eq!(desc.list_voltage_linear(3), Ok(0));
    assert_eq!(desc.list_voltage_linear(4), Ok(800000));
    assert_eq!(desc.list_voltage_linear(15), Ok(800000 + 11 * 50000));
    assert_eq!(desc.list_voltage_linear(16), Err(Error::Unsupported));
    let huge = Desc::new("big", Type::Voltage).with_linear_mapping(1, 0xff, 2_000_000_000, 100_000_000, 8, 0);
    assert_eq!(huge.list_voltage_linear(1), Ok(2_100_000_000));
    assert_eq!(huge.list_voltage_linear(2), Err(Error::Unsupported));
}

#[test]
fn list_voltage_over_linear_ranges() {
    let ranges = vec![
        LinearRange { min: 600000, min_sel: 0, max_sel: 0x7f, step: 6250 },
        LinearRange { min: 1400000, min_sel: 0x80, max_sel: 0x8f, step: 100000 },
    ];
    let desc = Desc::new("ranges", Type::Voltage).with_linear_ranges(0x11, 0xff, ranges);
    assert_eq!(desc.list_voltage_linear_range(0), Ok(600000));
    assert_eq!(desc.list_voltage_linear_range(0x7f), Ok(1393750));
    assert_eq!(desc.list_voltage_linear_range(0x80), Ok(1400000));
    assert_eq!(desc.list_voltage_linear_range(0x82), Ok(1600000));
    assert_eq!(desc.list_voltage_linear_range(0x90), Err(Error::Unsupported));
    assert!(desc.has_selector(0x8f));
    assert!(!desc.has_selector(0x90));
    let none = Desc::new("none", Type::Voltage);
    assert_eq!(none.list_voltage_linear_range(0), Err(Error::Unsupported));
    assert!(!none.has_selector(0));
}

#[test]
fn set_current_limit_picks_the_largest_current_not_above_the_limit() {
    let decl = registers().unwrap();
    let regmap = Regmap::new(regmap_config(), &decl);
    let desc = desc();
    let mut driver = Driver::probe(&regmap, &decl, &desc).unwrap();
    let rdev = driver.rdev().unwrap();
    let mut bus = Bus::new();
    bus.regs.insert(LIMCONF, 0x33);
    let first = driver.set_current_limit(&rdev, 3600000, 4200000);
    assert_eq!(
        first,
        Step::Issue(Request::Update { reg: 0x16, mask: 0xc0, value: 0x40, force: false })
    );
    assert_eq!(finish(&mut driver, &rdev, first, &mut bus), Ok(Reply::Unit));
    assert_eq!(bus.reg(LIMCONF), 0x73);
    let first = driver.get_current_limit(&rdev);
    assert_eq!(first, Step::Issue(Request::Read { reg: 0x16 }));
    assert_eq!(finish(&mut driver, &rdev, first, &mut bus), Ok(Reply::Value(4000000)));
    assert_eq!(desc.current_limit_selector(4200000), Ok(1));
    assert_eq!(desc.current_limit_selector(i32::MAX), Ok(3));
    assert_eq!(desc.current_limit_selector(3500000), Ok(0));
    assert_eq!(desc.current_limit_selector(3999999), Ok(0));
    assert_eq!(desc.current_limit_selector(4000000), Ok(1));
    assert_eq!(desc.current_limit_selector(4999999), Ok(2));
    assert_eq!(desc.current_limit_selector(5000000), Ok(3));
}

#[test]
fn set_current_limit_takes_no_account_of_the_lower_bound() {
    let decl = registers().unwrap();
    let regmap = Regmap::new(regmap_config(), &decl);
    let desc = desc();
    let mut driver = Driver::probe(&regmap, &decl, &desc).unwrap();
    let rdev = driver.rdev().unwrap();
    let mut bus = Bus::new();
    let cases = [
        (4100000, 4200000, 4000000),
        (4100000, 4400000, 4000000),
        (4200000, 3600000, 3500000),
        (5000001, i32::MAX, 5000000),
        (i32::MAX, 4500000, 4500000),
        (i32::MIN, 3500000, 3500000),
    ];
    for (min_ua, max_ua, chosen) in cases {
        let first = driver.set_current_limit(&rdev, min_ua, max_ua);
        assert_eq!(finish(&mut driver, &rdev, first, &mut bus), Ok(Reply::Unit));
        let first = driver.get_current_limit(&rdev);
        assert_eq!(finish(&mut driver, &rdev, first, &mut bus), Ok(Reply::Value(chosen)));
    }
}

#[test]
fn set_current_limit_fails_when_the_smallest_current_exceeds_the_limit() {
    let decl = registers().unwrap();
    let regmap = Regmap::new(regmap_config(), &decl);
    let desc = desc();
    let mut driver = Driver::probe(&regmap, &decl, &desc).unwrap();
    let rdev = driver.rdev().unwrap();
    let mut bus = Bus::new();
    bus.regs.insert(LIMCONF, 0x80);
    for (min_ua, max_ua) in [(0, 3000000), (0, 3499999), (-5, -1), (4000000, 0), (0, i32::MIN)] {
        let first = driver.set_current_limit(&rdev, min_ua, max_ua);
        assert_eq!(first, Step::Failed(Error::Unsupported));
        assert_eq!(finish(&mut driver, &rdev, first, &mut bus), Err(Error::Unsupported));
    }
    assert!(bus.log.is_empty());
    assert_eq!(bus.reg(LIMCONF), 0x80);
    assert!(driver.is_idle());
    assert_eq!(desc.current_limit_selector(3000000), Err(Error::Unsupported));
    assert_eq!(desc.current_limit_selector(3499999), Err(Error::Unsupported));
}

#[test]
fn current_limit_selection_over_an_unordered_table() {
    let desc = Desc::new("odd", Type::Current).with_csel(1, 0x0f, vec![300, 100, 300, 200]);
    assert_eq!(desc.current_limit_selector(1000), Ok(2));
    assert_eq!(desc.current_limit_selector(299), Ok(3));
    assert_eq!(desc.current_limit_selector(250), Ok(3));
    assert_eq!(desc.current_limit_selector(199), Ok(1));
    assert_eq!(desc.current_limit_selector(100), Ok(1));
    assert_eq!(desc.current_limit_selector(99), Err(Error::Unsupported));
    assert_eq!(desc.current_limit(0x03), Ok(200));
    assert_eq!(desc.current_limit(0x04), Err(Error::DecodeError));
    let empty = Desc::new("empty", Type::Current);
    assert_eq!(empty.current_limit_selector(1000), Err(Error::Unsupported));
    assert_eq!(empty.current_limit(0), Err(Error::InvalidArgument));
}

#[test]
fn set_mode_then_get_mode_round_trips() {
    let decl = registers().unwrap();
    let regmap = Regmap::new(regmap_config(), &decl);
    let desc = desc();
    let mut driver = Driver::probe(&regmap, &decl, &desc).unwrap();
    let rdev = driver.rdev().unwrap();
    let mut bus = Bus::new();
    bus.regs.insert(COMMAND, 0x41);
    let first = driver.set_mode(&rdev, Mode::Fast);
    assert_eq!(
        first,
        Step::Issue(Request::Update { reg: 0x14, mask: 0x80, value: 0x80, force: false })
    );
    assert_eq!(finish(&mut driver, &rdev, first, &mut bus), Ok(Reply::Unit));
    assert_eq!(bus.reg(COMMAND), 0xc1);
    let first = driver.get_mode(&rdev);
    assert_eq!(finish(&mut driver, &rdev, first, &mut bus), Ok(Reply::Mode(Mode::Fast)));
    let first = driver.set_mode(&rdev, Mode::Normal);
    assert_eq!(finish(&mut driver, &rdev, first, &mut bus), Ok(Reply::Unit));
    assert_eq!(bus.reg(COMMAND), 0x41);
    let first = driver.get_mode(&rdev);
    assert_eq!(finish(&mut driver, &rdev, first, &mut bus), Ok(Reply::Mode(Mode::Normal)));
}

#[test]
fn set_mode_refuses_other_modes_and_writes_nothing() {
    let decl = registers().unwrap();
    let regmap = Regmap::new(regmap_config(), &decl);
    let desc = desc();
    let mut driver = Driver::probe(&regmap, &decl, &desc).unwrap();
    let rdev = driver.rdev().unwrap();
    let mut bus = Bus::new();
    bus.regs.insert(COMMAND, 0x80);
    for mode in [Mode::Invalid, Mode::Idle, Mode::Standby] {
        let first = driver.set_mode(&rdev, mode);
        assert_eq!(first, Step::Failed(Error::Unsupported));
        assert_eq!(finish(&mut driver, &rdev, first, &mut bus), Err(Error::Unsupported));
        let first = driver.set_suspend_mode(&rdev, mode);
        assert_eq!(first, Step::Failed(Error::Unsupported));
    }
    assert!(bus.log.is_empty());
    assert_eq!(bus.reg(COMMAND), 0x80);
    let first = driver.get_mode(&rdev);
    assert_eq!(finish(&mut driver, &rdev, first, &mut bus), Ok(Reply::Mode(Mode::Fast)));
}

#[test]
fn get_mode_answers_invalid_when_the_read_fails() {
    let decl = registers().unwrap();
    let regmap = Regmap::new(regmap_config(), &decl);
    let desc = desc();
    let mut driver = Driver::probe(&regmap, &decl, &desc).unwrap();
    let rdev = driver.rdev().unwrap();
    let mut bus = Bus::new();
    bus.broken.push(COMMAND);
    let first = driver.get_mode(&rdev);
    assert_eq!(finish(&mut driver, &rdev, first, &mut bus), Ok(Reply::Mode(Mode::Invalid)));
    assert!(driver.is_idle());
}

#[test]
fn enable_disable_and_is_enabled() {
    let decl = registers().unwrap();
    let regmap = Regmap::new(regmap_config(), &decl);
    let desc = desc();
    let mut driver = Driver::probe(&regmap, &decl, &desc).unwrap();
    let rdev = driver.rdev().unwrap();
    let mut bus = Bus::new();
    bus.regs.insert(PROGVSEL0, 0x2a);
    let first = driver.is_enabled(&rdev);
    assert_eq!(first, Step::Issue(Request::Read { reg: 0x11 }));
    assert_eq!(finish(&mut driver, &rdev, first, &mut bus), Ok(Reply::Flag(false)));
    let first = driver.enable(&rdev);
    assert_eq!(
        first,
        Step::Issue(Request::Update { reg: 0x11, mask: 0x80, value: 0x80, force: false })
    );
    assert_eq!(finish(&mut driver, &rdev, first, &mut bus), Ok(Reply::Unit));
    assert_eq!(bus.reg(PROGVSEL0), 0xaa);
    let first = driver.is_enabled(&rdev);
    assert_eq!(finish(&mut driver, &rdev, first, &mut bus), Ok(Reply::Flag(true)));
    let first = driver.disable(&rdev);
    assert_eq!(
        first,
        Step::Issue(Request::Update { reg: 0x11, mask: 0x80, value: 0, force: false })
    );
    assert_eq!(finish(&mut driver, &rdev, first, &mut bus), Ok(Reply::Unit));
    assert_eq!(bus.reg(PROGVSEL0), 0x2a);
}

#[test]
fn enable_values_honour_the_inverted_flag() {
    let plain = Desc::new("plain", Type::Voltage).with_enable(1, 0x06, 0x04, 0x02);
    assert_eq!((plain.enable_value(), plain.disable_value()), (0x04, 0x02));
    assert!(plain.is_enabled(0xfd));
    assert!(!plain.is_enabled(0x02));
    let inverted = Desc::new("inverted", Type::Voltage).with_inverted_enable(1, 0x06, 0x04, 0x02);
    assert!(inverted.enable_is_inverted);
    assert_eq!((inverted.enable_value(), inverted.disable_value()), (0x02, 0x04));
    assert!(inverted.is_enabled(0x02));
    assert!(!inverted.is_enabled(0x04));
    let bare = Desc::new("bare", Type::Voltage).with_enable(1, 0x80, 0, 0);
    assert_eq!((bare.enable_value(), bare.disable_value()), (0x80, 0));
    assert!(bare.is_enabled(0x80));
    assert!(!bare.is_enabled(0x7f));
    let flipped = Desc::new("flipped", Type::Voltage).with_inverted_enable(1, 0x80, 0, 0);
    assert_eq!((flipped.enable_value(), flipped.disable_value()), (0, 0x80));
    assert!(flipped.is_enabled(0x00));
    assert!(!flipped.is_enabled(0x80));
}

#[test]
fn voltage_selector_round_trips_and_rejects_the_count() {
    let decl = registers().unwrap();
    let regmap = Regmap::new(regmap_config(), &decl);
    let desc = desc();
    let mut driver = Driver::probe(&regmap, &decl, &desc).unwrap();
    let rdev = driver.rdev().unwrap();
    let mut bus = Bus::new();
    bus.regs.insert(PROGVSEL0, 0x80);
    for selector in [0u32, 5, 127] {
        let first = driver.set_voltage_sel(&rdev, selector);
        assert_eq!(
            first,
            Step::Issue(Request::Update { reg: 0x11, mask: 0x7f, value: selector, force: false })
        );
        assert_eq!(finish(&mut driver, &rdev, first, &mut bus), Ok(Reply::Unit));
        let first = driver.get_voltage_sel(&rdev);
        assert_eq!(finish(&mut driver, &rdev, first, &mut bus), Ok(Reply::Value(selector as i32)));
        assert_eq!(bus.reg(PROGVSEL0) & 0x80, 0x80);
    }
    assert_eq!(driver.set_voltage_sel(&rdev, 128), Step::Failed(Error::Unsupported));
    assert_eq!(driver.set_voltage_sel(&rdev, 1000), Step::Failed(Error::Unsupported));
}

#[test]
fn selector_placement_checks_mask_and_width() {
    assert_eq!(place(0xc0, 1), Ok(0x40));
    assert_eq!(place(0xc0, 3), Ok(0xc0));
    assert_eq!(place(0xc0, 4), Err(Error::ValueTooWide));
    assert_eq!(place(0, 0), Err(Error::InvalidArgument));
    assert_eq!(place(0xffff_ffff, 0xffff_ffff), Ok(0xffff_ffff));
    let wide = Desc::new("wide", Type::Voltage).with_linear_mapping(1, 0x0f, 0, 1, 64, 0);
    assert_eq!(wide.voltage_sel(0xf5), Ok(5));
    let high = Desc::new("high", Type::Voltage).with_linear_mapping(1, 0xffff_ffff, 0, 1, 64, 0);
    assert_eq!(high.voltage_sel(0x8000_0000), Err(Error::DecodeError));
    assert_eq!(Desc::new("none", Type::Voltage).voltage_sel(1), Err(Error::InvalidArgument));
}

#[test]
fn active_discharge_is_switched_by_its_bit() {
    let decl = registers().unwrap();
    let regmap = Regmap::new(regmap_config(), &decl);
    let desc = desc();
    let mut driver = Driver::probe(&regmap, &decl, &desc).unwrap();
    let rdev = driver.rdev().unwrap();
    assert_eq!(
        driver.set_active_discharge(&rdev, true),
        Step::Issue(Request::Update { reg: 0x12, mask: 0x10, value: 0x10, force: false })
    );
    assert_eq!(driver.advance(&rdev, Ok(0x10)), Step::Done(Reply::Unit));
    assert_eq!(
        driver.set_active_discharge(&rdev, false),
        Step::Issue(Request::Update { reg: 0x12, mask: 0x10, value: 0, force: false })
    );
    assert_eq!(driver.advance(&rdev, Err(Error::BusError(-6))), Step::Failed(Error::BusError(-6)));
}

#[test]
fn status_is_off_when_disabled_and_follows_the_mode_otherwise() {
    let decl = registers().unwrap();
    let regmap = Regmap::new(regmap_config(), &decl);
    let desc = desc();
    let mut driver = Driver::probe(&regmap, &decl, &desc).unwrap();
    let rdev = driver.rdev().unwrap();
    let mut bus = Bus::new();
    bus.regs.insert(COMMAND, 0x80);
    let first = driver.get_status(&rdev);
    assert_eq!(finish(&mut driver, &rdev, first, &mut bus), Ok(Reply::Status(Status::Off)));
    assert_eq!(bus.log, vec![Request::Read { reg: 0x11 }]);
    bus.regs.insert(PROGVSEL0, 0x80);
    bus.log.clear();
    let first = driver.get_status(&rdev);
    assert_eq!(finish(&mut driver, &rdev, first, &mut bus), Ok(Reply::Status(Status::Fast)));
    assert_eq!(bus.log, vec![Request::Read { reg: 0x11 }, Request::Read { reg: 0x14 }]);
    bus.regs.insert(COMMAND, 0x00);
    let first = driver.get_status(&rdev);
    assert_eq!(finish(&mut driver, &rdev, first, &mut bus), Ok(Reply::Status(Status::Normal)));
}

#[test]
fn status_passes_on_a_failure_of_the_enable_read_only() {
    let decl = registers().unwrap();
    let regmap = Regmap::new(regmap_config(), &decl);
    let desc = desc();
    let mut driver = Driver::probe(&regmap, &decl, &desc).unwrap();
    let rdev = driver.rdev().unwrap();
    let mut bus = Bus::new();
    bus.broken.push(PROGVSEL0);
    let first = driver.get_status(&rdev);
    assert_eq!(finish(&mut driver, &rdev, first, &mut bus), Err(Error::BusError(-110)));
    let mut bus = Bus::new();
    bus.regs.insert(PROGVSEL0, 0x80);
    bus.broken.push(COMMAND);
    let first = driver.get_status(&rdev);
    assert_eq!(finish(&mut driver, &rdev, first, &mut bus), Ok(Reply::Status(Status::Undefined)));
}

#[test]
fn suspend_voltage_rounds_up_to_the_grid() {
    let decl = registers().unwrap();
    let regmap = Regmap::new(regmap_config(), &decl);
    let desc = desc();
    let mut driver = Driver::probe(&regmap, &decl, &desc).unwrap();
    let rdev = driver.rdev().unwrap();
    let cases = [
        (600000, 0u32),
        (600001, 1),
        (606250, 1),
        (606251, 2),
        (1393750, 127),
        (1393749, 127),
        (599999, 0),
        (593751, 0),
    ];
    for (uv, selector) in cases {
        assert_eq!(
            driver.set_suspend_voltage(&rdev, uv),
            Step::Issue(Request::Update { reg: 0x10, mask: 0x7f, value: selector, force: false })
        );
        assert_eq!(driver.advance(&rdev, Ok(selector)), Step::Done(Reply::Unit));
    }
    assert_eq!(driver.set_suspend_voltage(&rdev, 1393751), Step::Failed(Error::ValueTooWide));
    assert_eq!(driver.set_suspend_voltage(&rdev, 593750), Step::Failed(Error::ValueTooWide));
    assert_eq!(driver.set_suspend_voltage(&rdev, 0), Step::Failed(Error::ValueTooWide));
    assert_eq!(driver.set_suspend_voltage(&rdev, i32::MIN), Step::Failed(Error::ValueTooWide));
    assert_eq!(driver.set_suspend_voltage(&rdev, i32::MAX), Step::Failed(Error::ValueTooWide));
}

#[test]
fn suspend_enable_sets_the_enable_bit_then_clears_the_selection_bit() {
    let decl = registers().unwrap();
    let regmap = Regmap::new(regmap_config(), &decl);
    let desc = desc();
    let mut driver = Driver::probe(&regmap, &decl, &desc).unwrap();
    let rdev = driver.rdev().unwrap();
    let mut bus = Bus::new();
    bus.regs.insert(COMMAND, 0xc1);
    let first = driver.set_suspend_enable(&rdev);
    assert_eq!(finish(&mut driver, &rdev, first, &mut bus), Ok(Reply::Unit));
    assert_eq!(
        bus.log,
        vec![
            Request::Update { reg: 0x10, mask: 0x80, value: 0x80, force: false },
            Request::Update { reg: 0x14, mask: 0x01, value: 0, force: false },
        ]
    );
    assert_eq!(bus.reg(PROGVSEL1), 0x80);
    assert_eq!(bus.reg(COMMAND), 0xc0);
    bus.log.clear();
    let first = driver.set_suspend_disable(&rdev);
    assert_eq!(finish(&mut driver, &rdev, first, &mut bus), Ok(Reply::Unit));
    assert_eq!(
        bus.log,
        vec![
            Request::Update { reg: 0x10, mask: 0x80, value: 0, force: false },
            Request::Update { reg: 0x14, mask: 0x01, value: 1, force: false },
        ]
    );
    assert_eq!(bus.reg(PROGVSEL1), 0x00);
    assert_eq!(bus.reg(COMMAND), 0xc1);
}

#[test]
fn suspend_enable_stops_at_the_first_failure() {
    let decl = registers().unwrap();
    let regmap = Regmap::new(regmap_config(), &decl);
    let desc = desc();
    let mut driver = Driver::probe(&regmap, &decl, &desc).unwrap();
    let rdev = driver.rdev().unwrap();
    let mut bus = Bus::new();
    bus.broken.push(PROGVSEL1);
    let first = driver.set_suspend_enable(&rdev);
    assert_eq!(finish(&mut driver, &rdev, first, &mut bus), Err(Error::BusError(-110)));
    assert_eq!(bus.log.len(), 1);
    let first = driver.set_suspend_disable(&rdev);
    assert_eq!(finish(&mut driver, &rdev, first, &mut bus), Err(Error::BusError(-110)));
    assert_eq!(bus.log.len(), 2);
    let mut bus = Bus::new();
    bus.broken.push(COMMAND);
    let first = driver.set_suspend_enable(&rdev);
    assert_eq!(finish(&mut driver, &rdev, first, &mut bus), Err(Error::BusError(-110)));
    assert_eq!(bus.log.len(), 2);
    assert!(driver.is_idle());
}

#[test]
fn suspend_mode_uses_its_own_bit() {
    let decl = registers().unwrap();
    let regmap = Regmap::new(regmap_config(), &decl);
    let desc = desc();
    let mut driver = Driver::probe(&regmap, &decl, &desc).unwrap();
    let rdev = driver.rdev().unwrap();
    assert_eq!(
        driver.set_suspend_mode(&rdev, Mode::Fast),
        Step::Issue(Request::Update { reg: 0x14, mask: 0x40, value: 0x40, force: false })
    );
    assert_eq!(driver.advance(&rdev, Ok(0x40)), Step::Done(Reply::Unit));
    assert_eq!(
        driver.set_suspend_mode(&rdev, Mode::Normal),
        Step::Issue(Request::Update { reg: 0x14, mask: 0x40, value: 0, force: false })
    );
}

#[test]
fn identification_fields_are_read_through_the_driver() {
    let decl = registers().unwrap();
    let regmap = Regmap::new(regmap_config(), &decl);
    let desc = desc();
    let mut driver = Driver::probe(&regmap, &decl, &desc).unwrap();
    let rdev = driver.rdev().unwrap();
    let mut bus = Bus::new();
    bus.regs.insert(0x3, 0x1b);
    bus.regs.insert(0x4, 0x10);
    bus.regs.insert(0x5, 0x02);
    let mut ids = Vec::new();
    for index in [PID_VALUE, RID_VALUE, FID_VALUE] {
        let first = driver.read_field(&rdev, index);
        ids.push(finish(&mut driver, &rdev, first, &mut bus));
    }
    assert_eq!(ids, vec![Ok(Reply::Number(0x1b)), Ok(Reply::Number(0x10)), Ok(Reply::Number(0x02))]);
    bus.regs.insert(LIMCONF, 0x80);
    let first = driver.read_field(&rdev, LIMCONF_IPEAK);
    assert_eq!(finish(&mut driver, &rdev, first, &mut bus), Ok(Reply::Number(2)));
    assert_eq!(driver.read_field(&rdev, FIELD_COUNT), Step::Failed(Error::InvalidArgument));
    bus.broken.push(0x3);
    let first = driver.read_field(&rdev, PID_VALUE);
    assert_eq!(finish(&mut driver, &rdev, first, &mut bus), Err(Error::BusError(-110)));
}

#[test]
fn a_running_regulator_operation_refuses_another() {
    let decl = registers().unwrap();
    let regmap = Regmap::new(regmap_config(), &decl);
    let desc = desc();
    let mut driver = Driver::probe(&regmap, &decl, &desc).unwrap();
    let rdev = driver.rdev().unwrap();
    assert!(matches!(driver.enable(&rdev), Step::Issue(_)));
    assert!(!driver.is_idle());
    assert_eq!(driver.enable(&rdev), Step::Failed(Error::NotReady));
    assert_eq!(driver.list_voltage(&rdev, 0), Step::Failed(Error::NotReady));
    assert_eq!(driver.get_mode(&rdev), Step::Failed(Error::NotReady));
    assert_eq!(driver.advance(&rdev, Ok(0x80)), Step::Done(Reply::Unit));
    assert_eq!(driver.advance(&rdev, Ok(0x80)), Step::Failed(Error::InvalidArgument));
}

#[test]
fn a_removed_device_is_not_ready() {
    let decl = registers().unwrap();
    let regmap = Regmap::new(regmap_config(), &decl);
    let desc = desc();
    let mut driver = Driver::probe(&regmap, &decl, &desc).unwrap();
    let rdev = driver.rdev().unwrap();
    assert!(!driver.is_removed());
    assert!(matches!(driver.get_mode(&rdev), Step::Issue(_)));
    driver.remove();
    assert!(driver.is_removed());
    assert!(driver.is_idle());
    assert!(driver.rdev().is_none());
    assert_eq!(driver.set_mode(&rdev, Mode::Fast), Step::Failed(Error::NotReady));
    assert_eq!(driver.set_mode(&rdev, Mode::Idle), Step::Failed(Error::NotReady));
    assert_eq!(driver.get_mode(&rdev), Step::Done(Reply::Mode(Mode::Invalid)));
    assert_eq!(driver.set_suspend_voltage(&rdev, 600000), Step::Failed(Error::NotReady));
    assert_eq!(driver.set_suspend_enable(&rdev), Step::Failed(Error::NotReady));
    assert_eq!(driver.set_suspend_disable(&rdev), Step::Failed(Error::NotReady));
    assert_eq!(driver.set_suspend_mode(&rdev, Mode::Normal), Step::Failed(Error::NotReady));
    assert_eq!(driver.read_field(&rdev, PID_VALUE), Step::Failed(Error::NotReady));
    let first = driver.get_status(&rdev);
    assert_eq!(first, Step::Issue(Request::Read { reg: 0x11 }));
    assert_eq!(driver.advance(&rdev, Ok(0x80)), Step::Done(Reply::Status(Status::Undefined)));
}

#[test]
fn probe_needs_the_chip_s_declaration_and_a_fitting_map() {
    let desc = desc();
    let small = FieldsDesc::new(vec![
        FieldDesc::raw(0, 0x3, RW, 7, 0, FieldMode::ReadWrite).unwrap(),
    ])
    .unwrap();
    let regmap = Regmap::new(regmap_config(), &small);
    assert_eq!(Driver::probe(&regmap, &small, &desc).err(), Some(Error::InvalidArgument));
    let decl = registers().unwrap();
    let narrow = Regmap::new(Config::new(8, 8).with_max_register(0x14), &decl);
    assert_eq!(Driver::probe(&narrow, &decl, &desc).err(), Some(Error::InvalidArgument));
    let four_bits = Regmap::new(Config::new(8, 4), &decl);
    assert_eq!(Driver::probe(&four_bits, &decl, &desc).err(), Some(Error::InvalidArgument));
}

#[test]
fn registering_needs_a_register_map() {
    let decl = registers().unwrap();
    let regmap = Regmap::new(regmap_config(), &decl);
    let desc = desc();
    assert_eq!(
        RegulatorDev::register(&desc, RegulatorConfig::new()).err(),
        Some(Error::InvalidArgument)
    );
    let rdev = RegulatorDev::register(&desc, RegulatorConfig::new().with_regmap(&regmap)).unwrap();
    assert_eq!(rdev.get_name(), "ncv6336");
    assert_eq!(rdev.descriptor().n_voltages, 128);
    assert_eq!(rdev.list_voltage_linear(2), Ok(612500));
    assert_eq!(rdev.list_voltage_linear_range(2), Err(Error::Unsupported));
    assert_eq!(rdev.enable_regmap(), Ok(Request::Update { reg: 0x11, mask: 0x80, value: 0x80, force: false }));
    assert_eq!(rdev.disable_regmap(), Ok(Request::Update { reg: 0x11, mask: 0x80, value: 0, force: false }));
    assert_eq!(rdev.is_enabled_regmap(), Ok(Request::Read { reg: 0x11 }));
    assert_eq!(rdev.get_voltage_sel_regmap(), Ok(Request::Read { reg: 0x11 }));
    assert_eq!(rdev.get_current_limit_regmap(), Ok(Request::Read { reg: 0x16 }));
    assert_eq!(rdev.set_voltage_sel_regmap(128), Err(Error::Unsupported));
    assert_eq!(
        rdev.set_active_discharge_regmap(true),
        Ok(Request::Update { reg: 0x12, mask: 0x10, value: 0x10, force: false })
    );
    assert_eq!(
        rdev.set_current_limit_regmap(0, 5000000),
        Ok(Request::Update { reg: 0x16, mask: 0xc0, value: 0xc0, force: false })
    );
}

#[test]
fn helpers_are_denied_on_registers_that_are_not_declared() {
    let decl = registers().unwrap();
    let regmap = Regmap::new(regmap_config(), &decl);
    let stray = Desc::new("stray", Type::Voltage)
        .with_enable(0x3, 0x80, 0x80, 0)
        .with_linear_mapping(0x15, 0x7f, 0, 1, 16, 0)
        .with_csel(0x40, 0x03, vec![1, 2]);
    let rdev = RegulatorDev::register(&stray, RegulatorConfig::new().with_regmap(&regmap)).unwrap();
    assert_eq!(rdev.enable_regmap(), Err(Error::PermissionDenied));
    assert_eq!(rdev.is_enabled_regmap(), Ok(Request::Read { reg: 0x3 }));
    assert_eq!(rdev.get_voltage_sel_regmap(), Err(Error::PermissionDenied));
    assert_eq!(rdev.set_voltage_sel_regmap(1), Err(Error::PermissionDenied));
    assert_eq!(rdev.set_current_limit_regmap(0, 5), Err(Error::PermissionDenied));
}

/// A driver that overrides nothing.
struct Bare;

impl Operations for Bare {}

#[test]
fn regulator_operations_that_a_driver_lacks_are_unsupported() {
    let decl = registers().unwrap();
    let regmap = Regmap::new(regmap_config(), &decl);
    let desc = desc();
    let rdev = RegulatorDev::register(&desc, RegulatorConfig::new().with_regmap(&regmap)).unwrap();
    let mut bare = Bare;
    let unsupported = Step::Failed(Error::Unsupported);
    assert_eq!(bare.list_voltage(&rdev, 0), unsupported);
    assert_eq!(bare.set_voltage(&rdev, 0, 1), unsupported);
    assert_eq!(bare.map_voltage(&rdev, 0, 1), unsupported);
    assert_eq!(bare.set_voltage_sel(&rdev, 0), unsupported);
    assert_eq!(bare.get_voltage(&rdev), unsupported);
    assert_eq!(bare.get_voltage_sel(&rdev), unsupported);
    assert_eq!(bare.set_current_limit(&rdev, 0, 1), unsupported);
    assert_eq!(bare.get_current_limit(&rdev), unsupported);
    assert_eq!(bare.set_input_current_limit(&rdev, 1), unsupported);
    assert_eq!(bare.set_over_current_protection(&rdev, 1, 0, true), unsupported);
    assert_eq!(bare.set_over_voltage_protection(&rdev, 1, 0, true), unsupported);
    assert_eq!(bare.set_under_voltage_protection(&rdev, 1, 0, true), unsupported);
    assert_eq!(bare.set_thermal_protection(&rdev, 1, 0, true), unsupported);
    assert_eq!(bare.set_active_discharge(&rdev, true), unsupported);
    assert_eq!(bare.enable(&rdev), unsupported);
    assert_eq!(bare.disable(&rdev), unsupported);
    assert_eq!(bare.is_enabled(&rdev), unsupported);
    assert_eq!(bare.set_mode(&rdev, Mode::Fast), unsupported);
    assert_eq!(bare.get_mode(&rdev), Step::Done(Reply::Mode(Mode::Invalid)));
    assert_eq!(bare.get_error_flags(&rdev), unsupported);
    assert_eq!(bare.enable_time(&rdev), unsupported);
    assert_eq!(bare.set_ramp_delay(&rdev, 1), unsupported);
    assert_eq!(bare.set_voltage_time(&rdev, 0, 1), unsupported);
    assert_eq!(bare.set_voltage_time_sel(&rdev, 0, 1), unsupported);
    assert_eq!(bare.set_soft_start(&rdev), unsupported);
    assert_eq!(bare.get_status(&rdev), unsupported);
    assert_eq!(bare.get_optimum_mode(&rdev, 0, 0, 0), Step::Done(Reply::Mode(Mode::Invalid)));
    assert_eq!(bare.set_load(&rdev, 1), unsupported);
    assert_eq!(bare.set_bypass(&rdev, true), unsupported);
    assert_eq!(bare.get_bypass(&rdev), unsupported);
    assert_eq!(bare.set_suspend_voltage(&rdev, 1), unsupported);
    assert_eq!(bare.set_suspend_enable(&rdev), unsupported);
    assert_eq!(bare.set_suspend_disable(&rdev), unsupported);
    assert_eq!(bare.set_suspend_mode(&rdev, Mode::Fast), unsupported);
    assert_eq!(bare.resume(&rdev), unsupported);
    assert_eq!(bare.set_pull_down(&rdev), unsupported);
    assert_eq!(bare.advance(&rdev, Ok(0)), unsupported);
}

#[test]
fn chip_driver_leaves_the_other_operations_unsupported() {
    let decl = registers().unwrap();
    let regmap = Regmap::new(regmap_config(), &decl);
    let desc = desc();
    let mut driver = Driver::probe(&regmap, &decl, &desc).unwrap();
    let rdev = driver.rdev().unwrap();
    assert_eq!(driver.set_voltage(&rdev, 0, 1), Step::Failed(Error::Unsupported));
    assert_eq!(driver.get_voltage(&rdev), Step::Failed(Error::Unsupported));
    assert_eq!(driver.set_bypass(&rdev, true), Step::Failed(Error::Unsupported));
    assert_eq!(driver.resume(&rdev), Step::Failed(Error::Unsupported));
    assert_eq!(driver.get_optimum_mode(&rdev, 0, 0, 0), Step::Done(Reply::Mode(Mode::Invalid)));
    assert!(driver.is_idle());
}
