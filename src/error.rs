//! Failures reported to the caller.
use vstd::prelude::*;
use crate::text::{owned, push_str};

verus! {

/// The kinds of failure the application reports.
#[derive(Debug, Clone, PartialEq)]
pub enum AppError {
    ApiError(String),
    StorageError(String),
    InvalidProvider(String),
    SettingsNotFound,
    ImageProcessingError(String),
    NetworkError(String),
    SerializationError(String),
    FileReadError(String),
    FileWriteError(String),
}

/// The user-facing message of an error.
pub open spec fn app_error_message(e: AppError) -> Seq<char> {
    match e {
        AppError::ApiError(d) => "API 요청 실패: "@ + d@,
        AppError::StorageError(d) => "파일 저장 실패: "@ + d@,
        AppError::InvalidProvider(d) => "잘못된 API 제공자: "@ + d@,
        AppError::SettingsNotFound => "설정을 찾을 수 없습니다"@,
        AppError::ImageProcessingError(d) => "이미지 처리 실패: "@ + d@,
        AppError::NetworkError(d) => "네트워크 오류: "@ + d@,
        AppError::SerializationError(d) => "직렬화 오류: "@ + d@,
        AppError::FileReadError(d) => "파일 읽기 오류: "@ + d@,
        AppError::FileWriteError(d) => "파일 쓰기 오류: "@ + d@,
    }
}

impl AppError {
    /// The user-facing message of this error.
    pub fn message(&self) -> (r: String)
        ensures
            r@ == app_error_message(*self),
    {
        let (prefix, detail): (&str, Option<&String>) = match self {
            AppError::ApiError(d) => ("API 요청 실패: ", Some(d)),
            AppError::StorageError(d) => ("파일 저장 실패: ", Some(d)),
            AppError::InvalidProvider(d) => ("잘못된 API 제공자: ", Some(d)),
            AppError::SettingsNotFound => ("설정을 찾을 수 없습니다", None),
            AppError::ImageProcessingError(d) => ("이미지 처리 실패: ", Some(d)),
            AppError::NetworkError(d) => ("네트워크 오류: ", Some(d)),
            AppError::SerializationError(d) => ("직렬화 오류: ", Some(d)),
            AppError::FileReadError(d) => ("파일 읽기 오류: ", Some(d)),
            AppError::FileWriteError(d) => ("파일 쓰기 오류: ", Some(d)),
        };
        let mut r = owned(prefix);
        match detail {
            Some(d) => push_str(&mut r, d.as_str()),
            None => {},
        }
        r
    }
}

} // verus!
