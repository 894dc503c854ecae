use module_hello::hello::Hello;
use module_hello::status::READY;
use module_hello::text::{DEVICE_NAME, GREETING};

#[test]
fn new_module_is_not_loaded() {
    let mut module = Hello::new();
    assert!(!module.is_loaded());
    assert_eq!(module.read(), None);
}

#[test]
fn default_module_is_not_loaded() {
    let mut module = Hello::default();
    assert!(!module.is_loaded());
    assert_eq!(module.read(), None);
}

#[test]
fn device_name_is_fixed() {
    assert_eq!(DEVICE_NAME, "rustmodule");
}

#[test]
fn greeting_is_fixed() {
    assert_eq!(GREETING, "Default hello message\n");
    assert_eq!(GREETING.len(), 22);
}

#[test]
fn ready_is_zero() {
    assert_eq!(READY, 0);
}

#[test]
fn busy_status_is_the_hosts_ebusy() {
    let mut module = Hello::new();
    module.load(true);
    let status = module.quiesce(1);
    assert_eq!(status, libc::EBUSY);
    assert_ne!(status, READY);
}

#[test]
fn quiesce_with_reports_the_given_code() {
    let mut module = Hello::new();
    module.load(true);
    assert_eq!(module.quiesce_with(3, 16), 16);
    assert_eq!(module.quiesce_with(3, -7), -7);
    assert_eq!(module.quiesce_with(0, 16), READY);
    assert_eq!(module.quiesce_with(-1, 16), READY);
    assert_eq!(module.quiesce_with(i32::MIN, 16), READY);
}

#[test]
fn module_that_is_not_loaded_is_ready_whatever_the_count() {
    let mut module = Hello::new();
    assert_eq!(module.quiesce(0), READY);
    assert_eq!(module.quiesce(1), READY);
    assert_eq!(module.quiesce_with(5, 16), READY);
    module.load(false);
    assert_eq!(module.quiesce(2), READY);
}

#[test]
fn negative_count_is_ready() {
    let mut module = Hello::new();
    module.load(true);
    assert_eq!(module.quiesce(-1), READY);
}

#[test]
fn quiesce_leaves_the_message_alone() {
    let mut module = Hello::new();
    module.load(true);
    assert_eq!(module.write::<i32>(Ok(b"stay\n".to_vec())), Ok(5));
    assert_eq!(module.quiesce(4), libc::EBUSY);
    assert_eq!(module.quiesce(0), READY);
    assert!(module.is_loaded());
    assert_eq!(module.read(), Some(b"stay\n".to_vec()));
}

#[test]
fn open_and_close_leave_the_module_alone() {
    let mut module = Hello::new();
    module.open();
    module.close();
    assert!(!module.is_loaded());
    module.load(true);
    module.open();
    module.close();
    module.close();
    assert!(module.is_loaded());
    assert_eq!(module.read(), Some(GREETING.as_bytes().to_vec()));
}

#[test]
fn unload_releases_the_device() {
    let mut module = Hello::new();
    module.load(true);
    assert_eq!(module.write::<i32>(Ok(b"gone\n".to_vec())), Ok(5));
    module.unload();
    assert!(!module.is_loaded());
    assert_eq!(module.read(), None);
    assert_eq!(module.write::<i32>(Ok(b"late\n".to_vec())), Ok(0));
    assert_eq!(module.quiesce(1), READY);
}

#[test]
fn unload_of_a_module_that_is_not_loaded_changes_nothing() {
    let mut module = Hello::new();
    module.unload();
    assert!(!module.is_loaded());
    assert_eq!(module.read(), None);
}

#[test]
fn loading_again_starts_from_the_greeting() {
    let mut module = Hello::new();
    module.load(true);
    assert_eq!(module.write::<i32>(Ok(b"old\n".to_vec())), Ok(4));
    module.unload();
    module.load(true);
    assert_eq!(module.read(), Some(GREETING.as_bytes().to_vec()));
}

#[test]
fn refused_registration_does_not_touch_a_loaded_module() {
    let mut module = Hello::new();
    module.load(true);
    assert_eq!(module.write::<i32>(Ok(b"mine\n".to_vec())), Ok(5));
    module.load(false);
    assert!(module.is_loaded());
    assert_eq!(module.read(), Some(b"mine\n".to_vec()));
}

#[test]
fn load_after_a_refusal_succeeds() {
    let mut module = Hello::new();
    module.load(false);
    assert!(!module.is_loaded());
    module.load(true);
    assert!(module.is_loaded());
    assert_eq!(module.read(), Some(GREETING.as_bytes().to_vec()));
}
