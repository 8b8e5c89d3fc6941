//! Errors of the cloud API client.

use vstd::prelude::*;

verus! {

/// What can go wrong when calling the cloud API.
#[derive(Debug, Clone)]
pub enum CloudApiError {
    RequestFailed(String),
    NotAuthenticated,
    NetworkError(String),
    ServerError(String),
    ParseError(String),
    RateLimited,
}

impl CloudApiError {
    /// Whether the error is that the user is not signed in.
    pub fn is_auth_error(&self) -> (r: bool)
        ensures
            r == (*self is NotAuthenticated),
    {
        match self {
            CloudApiError::NotAuthenticated => true,
            _ => false,
        }
    }

    /// The message of the error.
    pub fn message(&self) -> (r: String)
        ensures
            r@ == error_message(*self),
    {
        match self {
            CloudApiError::RequestFailed(s) => {
                let mut m = "云 API 请求失败: ".to_string();
                m.append(s.as_str());
                m
            },
            CloudApiError::NotAuthenticated => "未认证".to_string(),
            CloudApiError::NetworkError(s) => {
                let mut m = "网络错误: ".to_string();
                m.append(s.as_str());
                m
            },
            CloudApiError::ServerError(s) => {
                let mut m = "服务器错误: ".to_string();
                m.append(s.as_str());
                m
            },
            CloudApiError::ParseError(s) => {
                let mut m = "解析错误: ".to_string();
                m.append(s.as_str());
                m
            },
            CloudApiError::RateLimited => "API 限流".to_string(),
        }
    }
}

/// The message of an error: a fixed prefix, and the detail where it has one.
pub open spec fn error_message(e: CloudApiError) -> Seq<char> {
    match e {
        CloudApiError::RequestFailed(s) => "云 API 请求失败: "@ + s@,
        CloudApiError::NotAuthenticated => "未认证"@,
        CloudApiError::NetworkError(s) => "网络错误: "@ + s@,
        CloudApiError::ServerError(s) => "服务器错误: "@ + s@,
        CloudApiError::ParseError(s) => "解析错误: "@ + s@,
        CloudApiError::RateLimited => "API 限流"@,
    }
}

} // verus!
