//! Enum/code translation round-trips.

use hitchcock::gl::{DebugSeverity, DebugSource, DebugType};
use hitchcock::glfw::ErrorCode;

#[test]
fn error_code_named_round_trip() {
    let named = [
        ErrorCode::NoError,
        ErrorCode::NotInitialized,
        ErrorCode::NoCurrentContext,
        ErrorCode::InvalidEnum,
        ErrorCode::InvalidValue,
        ErrorCode::OutOfMemory,
        ErrorCode::ApiUnavailable,
        ErrorCode::VersionUnavailable,
        ErrorCode::PlatformError,
        ErrorCode::FormatUnavailable,
        ErrorCode::NoWindowContext,
    ];
    for v in named {
        assert_eq!(ErrorCode::from_code(v.to_code()), v);
    }
}

#[test]
fn error_code_expected_codes() {
    assert_eq!(ErrorCode::NoError.to_code(), 0);
    assert_eq!(ErrorCode::NotInitialized.to_code(), 0x00010001);
    assert_eq!(ErrorCode::NoWindowContext.to_code(), 0x0001000a);
    assert_eq!(ErrorCode::from_code(0x00010005), ErrorCode::OutOfMemory);
}

#[test]
fn error_code_unknown_round_trip() {
    let raw = [-1, 1, 0x00010000, 0x0001000b, 0x7fffffff];
    for c in raw {
        let v = ErrorCode::from_code(c);
        assert_eq!(v, ErrorCode::Unknown(c));
        assert_eq!(v.to_code(), c);
    }
}

#[test]
fn error_code_labels() {
    assert_eq!(ErrorCode::NoError.label(), "No error has occurred");
    assert_eq!(
        ErrorCode::NotInitialized.label(),
        "GLFW has not been initialized"
    );
    assert_eq!(ErrorCode::Unknown(42).label(), "Unknown");
}

#[test]
fn debug_source_round_trip() {
    let named = [
        DebugSource::Api,
        DebugSource::WindowSystem,
        DebugSource::ShaderCompiler,
        DebugSource::ThirdParty,
        DebugSource::Application,
        DebugSource::Other,
    ];
    for v in named {
        assert_eq!(DebugSource::from_code(v.to_code()), v);
    }
    assert_eq!(DebugSource::Api.to_code(), 0x8246);
    assert_eq!(DebugSource::from_code(0x8247), DebugSource::WindowSystem);
    assert_eq!(DebugSource::from_code(7), DebugSource::Unknown(7));
    assert_eq!(DebugSource::Unknown(7).to_code(), 7);
    assert_eq!(DebugSource::ShaderCompiler.label(), "Shader compiler");
}

#[test]
fn debug_type_round_trip() {
    let named = [
        DebugType::Error,
        DebugType::DeprecatedBehavior,
        DebugType::UndefinedBehavior,
        DebugType::Portability,
        DebugType::Performance,
        DebugType::Marker,
        DebugType::PushGroup,
        DebugType::PopGroup,
        DebugType::Other,
    ];
    for v in named {
        assert_eq!(DebugType::from_code(v.to_code()), v);
    }
    assert_eq!(DebugType::Error.to_code(), 0x824c);
    assert_eq!(DebugType::Other.to_code(), 0x8251);
    assert_eq!(DebugType::Marker.to_code(), 0x8268);
    assert_eq!(DebugType::from_code(0x8252), DebugType::Unknown(0x8252));
    assert_eq!(DebugType::from_code(0x8252).to_code(), 0x8252);
    assert_eq!(DebugType::DeprecatedBehavior.label(), "Deprecated behavior");
}

#[test]
fn debug_severity_round_trip() {
    let named = [
        DebugSeverity::High,
        DebugSeverity::Medium,
        DebugSeverity::Low,
        DebugSeverity::Notification,
    ];
    for v in named {
        assert_eq!(DebugSeverity::from_code(v.to_code()), v);
    }
    assert_eq!(DebugSeverity::High.to_code(), 0x9146);
    assert_eq!(DebugSeverity::Notification.to_code(), 0x826b);
    assert_eq!(DebugSeverity::from_code(0), DebugSeverity::Unknown(0));
    assert_eq!(DebugSeverity::from_code(0).to_code(), 0);
    assert_eq!(DebugSeverity::Medium.label(), "Medium");
}
