use logi_led::device::{
    claim_steps, listed_devices, release_steps, report_value, select_device, sendable,
    string_index, InterfaceStep, CONTROL_INTERFACE, SEND_TIMEOUT_MILLIS, SET_REPORT,
};
use logi_led::model::KeyboardModel;
use logi_led::types::DeviceInfo;

struct StubHandle {
    active: bool,
    detach_called: bool,
    attach_called: bool,
    claim_called: bool,
    release_called: bool,
}

impl StubHandle {
    fn new(active: bool) -> Self {
        Self {
            active,
            detach_called: false,
            attach_called: false,
            claim_called: false,
            release_called: false,
        }
    }

    fn kernel_driver_active(&self, _iface: u8) -> bool {
        self.active
    }

    fn detach_kernel_driver(&mut self, _iface: u8) {
        self.detach_called = true;
    }

    fn attach_kernel_driver(&mut self, _iface: u8) {
        self.attach_called = true;
    }

    fn claim_interface(&mut self, _iface: u8) {
        self.claim_called = true;
    }

    fn release_interface(&mut self, _iface: u8) {
        self.release_called = true;
    }

    fn take(&mut self, steps: Vec<InterfaceStep>) {
        for step in steps {
            match step {
                InterfaceStep::DetachKernelDriver => self.detach_kernel_driver(1),
                InterfaceStep::ClaimInterface => self.claim_interface(1),
                InterfaceStep::ReleaseInterface => self.release_interface(1),
                InterfaceStep::AttachKernelDriver => self.attach_kernel_driver(1),
            }
        }
    }
}

#[test]
fn detach_and_reattach_when_active() {
    let mut handle = StubHandle::new(true);

    let driver_active = handle.kernel_driver_active(1);
    handle.take(claim_steps(driver_active));
    handle.take(release_steps(driver_active));

    assert!(handle.detach_called);
    assert!(handle.attach_called);
}

#[test]
fn no_detach_when_not_active() {
    let mut handle = StubHandle::new(false);

    let driver_active = handle.kernel_driver_active(1);
    handle.take(claim_steps(driver_active));
    handle.take(release_steps(driver_active));

    assert!(!handle.detach_called);
    assert!(!handle.attach_called);
}

#[test]
fn interface_steps_in_order() {
    assert_eq!(
        claim_steps(true),
        vec![InterfaceStep::DetachKernelDriver, InterfaceStep::ClaimInterface]
    );
    assert_eq!(claim_steps(false), vec![InterfaceStep::ClaimInterface]);
    assert_eq!(
        release_steps(true),
        vec![InterfaceStep::ReleaseInterface, InterfaceStep::AttachKernelDriver]
    );
    assert_eq!(release_steps(false), vec![InterfaceStep::ReleaseInterface]);
    let mut handle = StubHandle::new(false);
    handle.take(claim_steps(false));
    assert!(handle.claim_called && !handle.release_called);
    handle.take(release_steps(false));
    assert!(handle.release_called);
}

#[test]
fn transfer_constants() {
    assert_eq!(CONTROL_INTERFACE, 1);
    assert_eq!(SET_REPORT, 0x09);
    assert_eq!(SEND_TIMEOUT_MILLIS, 2000);
    assert_eq!(report_value(0), 0x0211);
    assert_eq!(report_value(20), 0x0211);
    assert_eq!(report_value(21), 0x0212);
    assert_eq!(report_value(64), 0x0212);
    assert!(sendable(0));
    assert!(sendable(20));
    assert!(!sendable(21));
    assert!(!sendable(63));
    assert!(sendable(64));
    assert!(!sendable(65));
    assert_eq!(string_index(None), None);
    assert_eq!(string_index(Some(0)), None);
    assert_eq!(string_index(Some(1)), Some(1));
    assert_eq!(string_index(Some(255)), Some(255));
}

fn device(product_id: u16, serial: Option<&str>, model: KeyboardModel) -> DeviceInfo {
    DeviceInfo {
        vendor_id: 0x046d,
        product_id,
        manufacturer: None,
        product: None,
        serial_number: serial.map(|s| s.to_string()),
        model,
    }
}

#[test]
fn select_device_by_ids_and_serial() {
    let devices = vec![
        device(0x0001, Some("mouse"), KeyboardModel::Unknown),
        device(0xc331, Some("A1"), KeyboardModel::G810),
        device(0xc33f, None, KeyboardModel::G815),
        device(0xc331, Some("B2"), KeyboardModel::G810),
    ];
    assert_eq!(select_device(&devices, 0, 0, None), Some(1));
    assert_eq!(select_device(&devices, 0x046d, 0, None), Some(1));
    assert_eq!(select_device(&devices, 0x046d, 0xc33f, None), Some(2));
    assert_eq!(select_device(&devices, 0, 0xc33f, None), Some(2));
    assert_eq!(select_device(&devices, 0, 0, Some("B2")), Some(3));
    assert_eq!(select_device(&devices, 0, 0xc331, Some("B2")), Some(3));
    assert_eq!(select_device(&devices, 0, 0xc33f, Some("B2")), None);
    assert_eq!(select_device(&devices, 0, 0, Some("mouse")), None);
    assert_eq!(select_device(&devices, 0, 0x0001, None), None);
    assert_eq!(select_device(&devices, 0x1234, 0, None), None);
    assert_eq!(select_device(&devices, 0, 0, Some("")), None);
    assert_eq!(select_device(&devices, 0, 0, Some("a1")), None);
    assert_eq!(select_device(&[], 0, 0, None), None);
}

#[test]
fn listed_devices_show_each_serial_once() {
    let devices = vec![
        device(1, Some("A"), KeyboardModel::G810),
        device(2, None, KeyboardModel::G810),
        device(3, Some("A"), KeyboardModel::G810),
        device(4, Some("B"), KeyboardModel::G810),
        device(5, None, KeyboardModel::G810),
        device(6, Some("B"), KeyboardModel::G810),
        device(7, Some("A"), KeyboardModel::G810),
        device(8, Some(""), KeyboardModel::G810),
        device(9, Some(""), KeyboardModel::G810),
    ];
    assert_eq!(listed_devices(&devices), vec![0, 1, 3, 4, 7]);
    assert_eq!(listed_devices(&[]), Vec::<usize>::new());
}
