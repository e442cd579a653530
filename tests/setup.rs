use fdk_aac::config::{BitRate, EncoderParams, ParamSetting, Transport};
use fdk_aac::error::EncoderError;
use fdk_aac::setup::{Setup, SetupAction, SetupPhase};

/// Engine double: answers each call with the next scripted code (OK once the
/// script runs out) and counts allocations and releases.
struct Script {
    codes: Vec<u32>,
    calls: usize,
    opened: usize,
    released: usize,
    settings: Vec<ParamSetting>,
    commits: usize,
}

impl Script {
    fn new(codes: Vec<u32>) -> Script {
        Script { codes, calls: 0, opened: 0, released: 0, settings: Vec::new(), commits: 0 }
    }

    fn answer(&mut self) -> u32 {
        let code = self.codes.get(self.calls).copied().unwrap_or(0);
        self.calls += 1;
        code
    }
}

fn drive(params: &EncoderParams, engine: &mut Script) -> Result<(), EncoderError> {
    let mut setup = Setup::new(params);
    loop {
        match setup.next_action() {
            SetupAction::Open { max_modules, max_channels } => {
                assert_eq!((max_modules, max_channels), (0, 2));
                let code = engine.answer();
                if code == 0 {
                    engine.opened += 1;
                }
                setup.on_result(code);
            }
            SetupAction::SetParam(s) => {
                engine.settings.push(s);
                let code = engine.answer();
                setup.on_result(code);
            }
            SetupAction::Commit => {
                engine.commits += 1;
                let code = engine.answer();
                setup.on_result(code);
            }
            SetupAction::Release => {
                engine.released += 1;
                setup.on_result(0);
            }
            SetupAction::Finish => return Ok(()),
            SetupAction::Abort(e) => return Err(e),
        }
    }
}

fn cbr() -> EncoderParams {
    EncoderParams { bit_rate: BitRate::Cbr(128_000), sample_rate: 44_100, transport: Transport::Adts }
}

#[test]
fn successful_setup_commits_once_after_all_settings() {
    let mut engine = Script::new(vec![]);
    assert!(drive(&cbr(), &mut engine).is_ok());
    assert_eq!(engine.opened, 1);
    assert_eq!(engine.settings.len(), 7);
    assert_eq!(engine.commits, 1);
    assert_eq!(engine.calls, 9);
    assert_eq!(engine.released, 0);
}

#[test]
fn failed_setting_releases_handle_once() {
    for k in 0..7 {
        let mut codes = vec![0; k + 1];
        codes.push(34);
        let mut engine = Script::new(codes);
        let r = drive(&cbr(), &mut engine);
        assert!(matches!(r, Err(EncoderError::FdkAac(34))));
        assert_eq!(engine.opened, 1);
        assert_eq!(engine.released, 1);
        assert_eq!(engine.settings.len(), k + 1);
        assert_eq!(engine.commits, 0);
    }
}

#[test]
fn failed_commit_releases_handle_once() {
    let mut codes = vec![0; 7];
    codes.insert(0, 0);
    codes.push(35);
    let mut engine = Script::new(codes);
    let r = drive(&cbr(), &mut engine);
    assert!(matches!(r, Err(EncoderError::FdkAac(35))));
    assert_eq!(engine.commits, 1);
    assert_eq!(engine.released, 1);
}

#[test]
fn failed_open_releases_nothing() {
    let mut engine = Script::new(vec![33]);
    let r = drive(&cbr(), &mut engine);
    assert!(matches!(r, Err(EncoderError::FdkAac(33))));
    assert_eq!(engine.opened, 0);
    assert_eq!(engine.released, 0);
    assert!(engine.settings.is_empty());
}

#[test]
fn setup_phases_in_order() {
    let params = EncoderParams { bit_rate: BitRate::VbrMedium, sample_rate: 32_000, transport: Transport::Raw };
    let mut setup = Setup::new(&params);
    assert_eq!(setup.phase(), SetupPhase::Opening);
    setup.on_result(0);
    assert_eq!(setup.phase(), SetupPhase::Configuring { index: 0 });
    for _ in 0..6 {
        setup.on_result(0);
    }
    assert_eq!(setup.phase(), SetupPhase::Committing);
    setup.on_result(0);
    assert_eq!(setup.phase(), SetupPhase::Ready);
}
