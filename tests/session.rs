use nano_vanity_gpu::gpu::{
    is_all_zero, zeroed_result, Action, ConfigError, Event, Gpu, Phase, RoundError, KEY_ROOT_LEN,
    RESULT_LEN,
};
use nano_vanity_gpu::matcher::Matcher;

fn one_byte_matcher() -> Matcher {
    Matcher::new(vec![0x01], vec![0xFF]).unwrap()
}

fn session(lanes: usize) -> Gpu {
    Gpu::new(1, 0, 0, lanes, &one_byte_matcher(), false).unwrap()
}

/// Runs one round against a simulated device whose dispatch leaves `record`
/// in the result buffer; returns the outcome and how many resets were asked for.
fn run_round(gpu: &mut Gpu, out: &mut [u8], key_root: &[u8], record: &[u8]) -> (Result<bool, RoundError>, usize) {
    let mut device_key_root = vec![0u8; KEY_ROOT_LEN];
    let mut device_result = zeroed_result();
    let mut resets = 0;
    let mut action = match gpu.start_round(out, key_root) {
        Ok(a) => a,
        Err(e) => return (Err(e), resets),
    };
    loop {
        let event = match action {
            Action::WriteKeyRoot => {
                device_key_root.copy_from_slice(key_root);
                Event::KeyRootWritten
            }
            Action::Dispatch => {
                device_result.copy_from_slice(record);
                Event::Dispatched
            }
            Action::ReadResult => {
                out.copy_from_slice(&device_result);
                Event::ResultRead(out.to_vec())
            }
            Action::ClearResult => {
                resets += 1;
                device_result = zeroed_result();
                Event::ResultCleared
            }
            Action::Finish(success) => return (Ok(success), resets),
        };
        action = match gpu.advance(event) {
            Ok(a) => a,
            Err(e) => return (Err(e), resets),
        };
    }
}

fn record_starting_with(first: u8) -> Vec<u8> {
    let mut r: Vec<u8> = (0..RESULT_LEN as u8).map(|i| i.wrapping_mul(7).wrapping_add(3)).collect();
    r[0] = first;
    r
}

#[test]
fn scenario_one_matching_lane() {
    let mut gpu = session(1024);
    assert_eq!(gpu.kernel_args().lanes, 1024);
    let record = record_starting_with(0x01);
    let mut out = [0u8; RESULT_LEN];
    let (r, resets) = run_round(&mut gpu, &mut out, &[5u8; KEY_ROOT_LEN], &record);
    assert_eq!(r, Ok(true));
    assert_eq!(resets, 1);
    assert_eq!(out.to_vec(), record);
}

#[test]
fn scenario_no_matching_lane() {
    let mut gpu = session(1024);
    let mut out = [0u8; RESULT_LEN];
    let (r, resets) = run_round(&mut gpu, &mut out, &[6u8; KEY_ROOT_LEN], &[0u8; RESULT_LEN]);
    assert_eq!(r, Ok(false));
    assert_eq!(resets, 0);
    assert!(out.iter().all(|&b| b == 0));
}

#[test]
fn no_match_leaves_session_ready() {
    let mut gpu = session(16);
    let mut out = [0u8; RESULT_LEN];
    assert_eq!(run_round(&mut gpu, &mut out, &[1u8; KEY_ROOT_LEN], &[0u8; RESULT_LEN]).0, Ok(false));
    assert_eq!(gpu.phase(), Phase::Idle);
    assert_eq!(gpu.start_round(&out, &[1u8; KEY_ROOT_LEN]), Ok(Action::WriteKeyRoot));
}

#[test]
fn match_is_not_reported_twice() {
    let mut gpu = session(16);
    let mut out = [0u8; RESULT_LEN];
    let record = record_starting_with(0x01);
    assert_eq!(run_round(&mut gpu, &mut out, &[2u8; KEY_ROOT_LEN], &record).0, Ok(true));
    let mut out2 = [0u8; RESULT_LEN];
    assert_eq!(run_round(&mut gpu, &mut out2, &[3u8; KEY_ROOT_LEN], &[0u8; RESULT_LEN]).0, Ok(false));
    assert!(out2.iter().all(|&b| b == 0));
}

#[test]
fn same_root_same_answer() {
    let record = record_starting_with(0x01);
    let root = [9u8; KEY_ROOT_LEN];
    let mut a = session(64);
    let mut b = session(64);
    let mut out_a = [0u8; RESULT_LEN];
    let mut out_b = [0u8; RESULT_LEN];
    assert_eq!(run_round(&mut a, &mut out_a, &root, &record).0, Ok(true));
    assert_eq!(run_round(&mut b, &mut out_b, &root, &record).0, Ok(true));
    assert_eq!(out_a, out_b);
    let mut out_again = [0u8; RESULT_LEN];
    assert_eq!(run_round(&mut a, &mut out_again, &root, &record).0, Ok(true));
    assert_eq!(out_again, out_a);
}

#[test]
fn no_platforms_is_reported() {
    let r = Gpu::new(0, 0, 0, 8, &one_byte_matcher(), false);
    assert_eq!(r.err(), Some(ConfigError::NoPlatforms));
}

#[test]
fn platform_index_equal_to_count_is_reported() {
    let r = Gpu::new(3, 3, 0, 8, &one_byte_matcher(), false);
    assert_eq!(r.err(), Some(ConfigError::PlatformIndexOutOfRange { index: 3, max: 2 }));
    let r = Gpu::new(1, 7, 0, 8, &one_byte_matcher(), false);
    assert_eq!(r.err(), Some(ConfigError::PlatformIndexOutOfRange { index: 7, max: 0 }));
}

#[test]
fn prefix_longer_than_a_byte_is_refused() {
    let m = Matcher::new(vec![1u8; 256], vec![0xFFu8; 256]).unwrap();
    let r = Gpu::new(1, 0, 0, 8, &m, false);
    assert_eq!(r.err(), Some(ConfigError::PrefixTooLong { len: 256 }));
}

#[test]
fn longest_prefix_is_bound_exactly() {
    let m = Matcher::new(vec![1u8; 255], vec![0xFFu8; 255]).unwrap();
    let gpu = Gpu::new(2, 1, 4, 8, &m, true).unwrap();
    let args = gpu.kernel_args();
    assert_eq!(args.prefix_len, 255);
    assert_eq!(args.generate_seed, 1);
    assert_eq!(args.lanes, 8);
    assert_eq!(gpu.platform_index(), 1);
    assert_eq!(gpu.device_index(), 4);
    assert_eq!(session(8).kernel_args().generate_seed, 0);
    assert_eq!(session(8).kernel_args().prefix_len, 1);
}

#[test]
fn matcher_keeps_pattern_and_mask() {
    let m = Matcher::new(vec![0x12, 0x34], vec![0xF0, 0xFF]).unwrap();
    assert_eq!(m.prefix_len(), 2);
    assert_eq!(m.req(), &[0x12, 0x34]);
    assert_eq!(m.mask(), &[0xF0, 0xFF]);
    assert!(Matcher::new(vec![1, 2], vec![0xFF]).is_none());
}

#[test]
fn out_of_order_steps_are_refused() {
    let mut gpu = session(8);
    assert_eq!(gpu.advance(Event::Dispatched), Err(RoundError::OutOfOrder));
    let out = [0u8; RESULT_LEN];
    assert_eq!(gpu.start_round(&out, &[0u8; KEY_ROOT_LEN]), Ok(Action::WriteKeyRoot));
    assert_eq!(gpu.start_round(&out, &[0u8; KEY_ROOT_LEN]), Err(RoundError::OutOfOrder));
    assert_eq!(gpu.advance(Event::ResultCleared), Err(RoundError::OutOfOrder));
    assert_eq!(gpu.phase(), Phase::WritingRoot);
    assert_eq!(gpu.advance(Event::KeyRootWritten), Ok(Action::Dispatch));
    assert_eq!(gpu.advance(Event::Dispatched), Ok(Action::ReadResult));
    assert_eq!(gpu.advance(Event::ResultRead(record_starting_with(0x01))), Ok(Action::ClearResult));
    assert_eq!(gpu.start_round(&out, &[0u8; KEY_ROOT_LEN]), Err(RoundError::OutOfOrder));
    assert_eq!(gpu.advance(Event::ResultCleared), Ok(Action::Finish(true)));
}

#[test]
fn bad_round_inputs_are_refused() {
    let mut gpu = session(8);
    assert_eq!(gpu.start_round(&[0u8; 32], &[0u8; KEY_ROOT_LEN]), Err(RoundError::BadOutLength));
    assert_eq!(gpu.start_round(&[0u8; RESULT_LEN], &[0u8; 32]), Err(RoundError::BadKeyRootLength));
    let mut dirty = [0u8; RESULT_LEN];
    dirty[63] = 1;
    assert_eq!(gpu.start_round(&dirty, &[0u8; KEY_ROOT_LEN]), Err(RoundError::OutNotZero));
    assert_eq!(gpu.phase(), Phase::Idle);
    assert_eq!(gpu.start_round(&[0u8; RESULT_LEN], &[0u8; KEY_ROOT_LEN]), Ok(Action::WriteKeyRoot));
    assert_eq!(gpu.advance(Event::KeyRootWritten), Ok(Action::Dispatch));
    assert_eq!(gpu.advance(Event::Dispatched), Ok(Action::ReadResult));
    assert_eq!(gpu.advance(Event::ResultRead(vec![1u8; 32])), Err(RoundError::BadResultLength));
    assert_eq!(gpu.phase(), Phase::Reading);
}

#[test]
fn zero_tests_and_reset_record() {
    assert!(is_all_zero(&[]));
    assert!(is_all_zero(&[0, 0, 0]));
    assert!(!is_all_zero(&[0, 0, 9]));
    let z = zeroed_result();
    assert_eq!(z.len(), RESULT_LEN);
    assert!(z.iter().all(|&b| b == 0));
}
