use pdeathsigexec::Argv;
use pdeathsigexec::ArgvError;
use pdeathsigexec::NextStep;
use pdeathsigexec::after_registration;
use pdeathsigexec::registration_outcome;
use pdeathsigexec::unsupported_registration;

#[test]
fn argv_accepts_ordinary_arguments() {
    let argv = Argv::new(vec!["/bin/echo".to_string(), "hello".to_string()]).unwrap();
    assert_eq!(argv.len(), 2);
    assert_eq!(argv.arg(0).unwrap().as_str(), "/bin/echo");
    assert_eq!(argv.arg(1).unwrap().as_str(), "hello");
    assert!(argv.arg(2).is_none());
}

#[test]
fn argv_rejects_empty_vector() {
    assert_eq!(Argv::new(vec![]).unwrap_err(), ArgvError::Empty);
}

#[test]
fn argv_rejects_interior_nul_at_first_offender() {
    let r = Argv::new(vec![
        "ok".to_string(),
        "bad\0arg".to_string(),
        "also\0bad".to_string(),
    ]);
    assert_eq!(r.unwrap_err(), ArgvError::InteriorNul(1));
}

#[test]
fn argv_rejects_nul_in_program_name() {
    let r = Argv::new(vec!["\0".to_string()]);
    assert_eq!(r.unwrap_err(), ArgvError::InteriorNul(0));
}

#[test]
fn marshaling_appends_exactly_one_nul_terminator() {
    let argv = Argv::new(vec!["hi".to_string()]).unwrap();
    let bufs = argv.to_nul_terminated();
    assert_eq!(bufs.len(), 1);
    assert_eq!(bufs[0], vec![b'h', b'i', 0u8]);
}

#[test]
fn marshaling_keeps_multibyte_utf8_intact() {
    let argv = Argv::new(vec!["é".to_string(), "".to_string()]).unwrap();
    let bufs = argv.to_nul_terminated();
    assert_eq!(bufs.len(), 2);
    assert_eq!(bufs[0], vec![0xC3u8, 0xA9u8, 0u8]);
    assert_eq!(bufs[1], vec![0u8]);
}

#[test]
fn zero_return_code_means_registration_succeeded() {
    assert_eq!(registration_outcome(0, 0), Ok(()));
}

#[test]
fn nonzero_return_code_reports_captured_error() {
    assert_eq!(registration_outcome(-1, 22), Err(22));
    assert_eq!(registration_outcome(7, 3), Err(3));
}

#[test]
fn unsupported_platform_fails_with_not_implemented_for_every_signal() {
    assert_eq!(unsupported_registration(15, libc::ENOSYS), Err(libc::ENOSYS));
    assert_eq!(unsupported_registration(9, libc::ENOSYS), Err(libc::ENOSYS));
    assert_eq!(unsupported_registration(-1, libc::ENOSYS), Err(libc::ENOSYS));
}

#[test]
fn successful_registration_leads_to_image_replacement() {
    assert_eq!(after_registration(Ok(())), NextStep::ReplaceImage);
}

#[test]
fn failed_registration_exits_with_captured_code() {
    assert_eq!(after_registration(Err(2)), NextStep::Exit(2));
    assert_eq!(after_registration(Err(38)), NextStep::Exit(38));
}
