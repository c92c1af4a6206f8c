use audio_bridge::bridge::{
    classify_diagnostic_kind, classify_diagnostic_severity, diagnostic_prefix, DiagnosticKind,
    DiagnosticSeverity, DEBUG_FLAG_ERROR, DEBUG_FLAG_LOG, DEBUG_FLAG_TYPE_CODEC,
    DEBUG_FLAG_TYPE_FILE, DEBUG_FLAG_TYPE_MEMORY, DEBUG_FLAG_WARNING,
};
use audio_bridge::errors::AudioError;

#[test]
fn severity_follows_the_loudest_bit() {
    assert_eq!(classify_diagnostic_severity(DEBUG_FLAG_ERROR), DiagnosticSeverity::Error);
    assert_eq!(classify_diagnostic_severity(DEBUG_FLAG_WARNING), DiagnosticSeverity::Warning);
    assert_eq!(classify_diagnostic_severity(DEBUG_FLAG_LOG), DiagnosticSeverity::Info);
    assert_eq!(classify_diagnostic_severity(0), DiagnosticSeverity::Trace);
    assert_eq!(
        classify_diagnostic_severity(DEBUG_FLAG_ERROR | DEBUG_FLAG_WARNING | DEBUG_FLAG_LOG),
        DiagnosticSeverity::Error,
    );
}

#[test]
fn kind_prefers_memory_then_file_then_codec() {
    assert_eq!(classify_diagnostic_kind(DEBUG_FLAG_TYPE_MEMORY), DiagnosticKind::Memory);
    assert_eq!(classify_diagnostic_kind(DEBUG_FLAG_TYPE_FILE), DiagnosticKind::File);
    assert_eq!(classify_diagnostic_kind(DEBUG_FLAG_TYPE_CODEC), DiagnosticKind::Codec);
    assert_eq!(classify_diagnostic_kind(DEBUG_FLAG_ERROR), DiagnosticKind::General);
    assert_eq!(
        classify_diagnostic_kind(DEBUG_FLAG_TYPE_MEMORY | DEBUG_FLAG_TYPE_CODEC),
        DiagnosticKind::Memory,
    );
}

#[test]
fn each_kind_has_its_prefix() {
    assert_eq!(diagnostic_prefix(DiagnosticKind::Memory), "MEMORY: ");
    assert_eq!(diagnostic_prefix(DiagnosticKind::File), "FILE: ");
    assert_eq!(diagnostic_prefix(DiagnosticKind::Codec), "CODEC: ");
    assert_eq!(diagnostic_prefix(DiagnosticKind::General), "");
}

#[test]
fn every_error_message_names_its_subject() {
    let directory = AudioError::MissingBankDirectory { path: String::from("/assets") };
    assert_eq!(directory.message(), "audio directory not found: /assets");

    let preparation = AudioError::SystemPreparationFailed { code: 1 };
    assert_eq!(preparation.message(), "failed to prepare the audio system");

    let build = AudioError::SystemBuildFailed { code: 2 };
    assert_eq!(build.message(), "failed to build the audio system");

    let bank = AudioError::BankLoadFailed { filename: String::from("SFX.bank"), code: 3 };
    assert_eq!(bank.message(), "failed to load bank: SFX.bank");

    let event = AudioError::EventNotFound { path: String::from("event:/Nope") };
    assert_eq!(event.message(), "event not found: event:/Nope");

    let call = AudioError::EngineCall {
        operation: String::from("setting listener 2 3D attributes"),
        code: 4,
    };
    assert_eq!(call.message(), "engine call failed: setting listener 2 3D attributes");
}

#[test]
fn errors_clone_exactly() {
    let original = AudioError::BankLoadFailed { filename: String::from("Master.bank"), code: 9 };
    assert_eq!(original.clone(), original);
}
