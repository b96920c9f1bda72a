use openssl_rand::error::{Error, ErrorStack};
use openssl_rand::native::{Call, Progress, Reply};
use openssl_rand::rand::{keep_random_devices_open, rand_bytes, RandBytes};

/// What stands in for the native library: it writes 0xa5 to as many bytes as
/// it is asked for and reports `code`, and its error queue holds `queue`.
struct Native {
    code: i32,
    queue: Vec<Error>,
    calls: Vec<Call>,
}

impl Native {
    fn new(code: i32, queue: Vec<Error>) -> Native {
        Native { code, queue, calls: Vec::new() }
    }

    fn perform(&mut self, call: Call, buf: &mut [u8]) -> Reply {
        self.calls.push(call);
        match call {
            Call::Init => Reply::Nothing,
            Call::RandBytes { num } => {
                if self.code > 0 {
                    for byte in buf.iter_mut().take(num as usize) {
                        *byte = 0xa5;
                    }
                }
                Reply::Code(self.code)
            }
            Call::ErrorStackGet => Reply::Errors(ErrorStack::new(std::mem::take(&mut self.queue))),
            other => panic!("a fill does not make the call {:?}", other),
        }
    }

    fn fill(&mut self, buf: &mut [u8]) -> Result<(), ErrorStack> {
        let mut fill: RandBytes = rand_bytes(buf.len());
        loop {
            let reply = self.perform(fill.call(), buf);
            match fill.step(reply) {
                Progress::Pending(next) => fill = next,
                Progress::Done(result) => return result,
            }
        }
    }
}

fn entropy_error() -> Error {
    Error::new(0x2406_e070, "crypto/rand/rand_lib.c".to_string(), 715, None)
}

fn not_initialized_error() -> Error {
    Error::new(
        0x2407_2073,
        "crypto/rand/drbg_lib.c".to_string(),
        638,
        Some("not instantiated".to_string()),
    )
}

#[test]
fn test_rand_bytes() {
    let mut buf = [0; 32];
    Native::new(1, Vec::new()).fill(&mut buf).unwrap();
}

#[test]
fn fill_of_256_bytes_succeeds_and_leaves_no_byte_as_it_was() {
    let mut native = Native::new(1, Vec::new());
    let mut buf = [0u8; 256];
    assert_eq!(native.fill(&mut buf), Ok(()));
    assert_ne!(buf, [0u8; 256]);
    assert!(buf.iter().all(|byte| *byte == 0xa5));
    assert_eq!(native.calls, vec![Call::Init, Call::RandBytes { num: 256 }]);
}

#[test]
fn fill_makes_the_initialization_its_first_call() {
    let fill = rand_bytes(32);
    assert_eq!(fill.call(), Call::Init);
    match fill.step(Reply::Nothing) {
        Progress::Pending(next) => assert_eq!(next.call(), Call::RandBytes { num: 32 }),
        Progress::Done(result) => panic!("over after the initialization: {:?}", result),
    }
}

#[test]
fn two_fills_of_one_length_make_the_same_calls() {
    let mut native = Native::new(1, Vec::new());
    let mut first = [0u8; 48];
    let mut second = [0u8; 48];
    assert_eq!(native.fill(&mut first), Ok(()));
    assert_eq!(native.fill(&mut second), Ok(()));
    assert_eq!(
        native.calls,
        vec![
            Call::Init,
            Call::RandBytes { num: 48 },
            Call::Init,
            Call::RandBytes { num: 48 },
        ]
    );
}

#[test]
fn fill_of_an_empty_buffer_asks_for_no_bytes() {
    let mut native = Native::new(1, Vec::new());
    let mut buf = [0u8; 0];
    assert_eq!(native.fill(&mut buf), Ok(()));
    assert_eq!(native.calls, vec![Call::Init, Call::RandBytes { num: 0 }]);
}

#[test]
fn fill_of_the_longest_buffer_asks_for_the_largest_count() {
    let longest: usize = 2_147_483_647;
    let fill = rand_bytes(longest);
    match fill.step(Reply::Nothing) {
        Progress::Pending(next) => {
            assert_eq!(next.call(), Call::RandBytes { num: 2_147_483_647 })
        }
        Progress::Done(result) => panic!("over after the initialization: {:?}", result),
    }
}

#[test]
fn fill_that_reports_zero_fails_with_the_error_queue() {
    let mut native = Native::new(0, vec![entropy_error(), not_initialized_error()]);
    let mut buf = [0u8; 16];
    let result = native.fill(&mut buf);
    assert_eq!(
        result,
        Err(ErrorStack::new(vec![entropy_error(), not_initialized_error()]))
    );
    assert_eq!(
        native.calls,
        vec![Call::Init, Call::RandBytes { num: 16 }, Call::ErrorStackGet]
    );
}

#[test]
fn fill_that_reports_a_negative_code_fails() {
    let mut native = Native::new(-1, vec![entropy_error()]);
    let mut buf = [0u8; 16];
    let errors = native.fill(&mut buf).unwrap_err();
    assert_eq!(errors.errors().len(), 1);
    assert_eq!(errors.errors()[0].code(), 0x2406_e070);
    assert_eq!(
        native.calls,
        vec![Call::Init, Call::RandBytes { num: 16 }, Call::ErrorStackGet]
    );
}

#[test]
fn fill_that_fails_with_an_empty_queue_fails_with_no_records() {
    let mut native = Native::new(0, Vec::new());
    let mut buf = [0u8; 8];
    assert_eq!(native.fill(&mut buf), Err(ErrorStack::new(Vec::new())));
}

#[test]
fn fill_reads_any_positive_code_as_success() {
    let mut buf = [0u8; 4];
    assert_eq!(Native::new(1, Vec::new()).fill(&mut buf), Ok(()));
    assert_eq!(Native::new(2, Vec::new()).fill(&mut buf), Ok(()));
    assert_eq!(Native::new(i32::MAX, Vec::new()).fill(&mut buf), Ok(()));
    assert!(Native::new(i32::MIN, Vec::new()).fill(&mut buf).is_err());
}

#[test]
fn reply_of_another_kind_leaves_the_call_pending() {
    let fill = rand_bytes(32);
    let fill = match fill.step(Reply::Code(1)) {
        Progress::Pending(same) => same,
        Progress::Done(result) => panic!("over after a reply that answers nothing: {:?}", result),
    };
    assert_eq!(fill.call(), Call::Init);
    let fill = match fill.step(Reply::Nothing) {
        Progress::Pending(next) => next,
        Progress::Done(result) => panic!("over after the initialization: {:?}", result),
    };
    assert_eq!(fill.call(), Call::RandBytes { num: 32 });
    let fill = match fill.step(Reply::Pointer(1)) {
        Progress::Pending(same) => same,
        Progress::Done(result) => panic!("over after a reply that answers nothing: {:?}", result),
    };
    assert_eq!(fill.call(), Call::RandBytes { num: 32 });
    let fill = match fill.step(Reply::Code(0)) {
        Progress::Pending(next) => next,
        Progress::Done(result) => panic!("over before the error queue was read: {:?}", result),
    };
    assert_eq!(fill.call(), Call::ErrorStackGet);
    let fill = match fill.step(Reply::Nothing) {
        Progress::Pending(same) => same,
        Progress::Done(result) => panic!("over after a reply that answers nothing: {:?}", result),
    };
    assert_eq!(fill.call(), Call::ErrorStackGet);
    assert_eq!(
        fill.step(Reply::Errors(ErrorStack::new(vec![entropy_error()]))),
        Progress::Done(Err(ErrorStack::new(vec![entropy_error()])))
    );
}

#[test]
fn keep_random_devices_open_passes_one_for_true() {
    assert_eq!(
        keep_random_devices_open(true),
        Call::KeepRandomDevicesOpen { keep: 1 }
    );
}

#[test]
fn keep_random_devices_open_passes_zero_for_false() {
    assert_eq!(
        keep_random_devices_open(false),
        Call::KeepRandomDevicesOpen { keep: 0 }
    );
}
