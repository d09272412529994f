//! Hooks run as HTTP requests (webhooks): the request a hook's settings
//! give, and how the response is recorded.

use vstd::prelude::*;
use core::time::Duration;
use crate::error::Error;
use crate::keyed::text_entries;
use crate::text::{decimal, opt_view, push_str, to_owned_string, to_uppercase, u64_to_string, uppercase_of};
use super::executor::{hook_failed, is_hook_failed, HookExecutor, HookResult};
use super::types::{status_is_success, HookConfig, HookType, HttpHookConfig};

verus! {

/// Runs hooks as HTTP requests.
#[derive(Debug, Clone, Copy)]
pub struct HttpHookExecutor;

/// The request an HTTP hook sends.
#[derive(Debug, Clone)]
pub struct HttpHookRequest {
    /// The configured method, in upper case.
    pub method: String,
    pub url: String,
    /// Headers in the order they are set: `Content-Type` first, then the
    /// configured headers.
    pub headers: Vec<(String, String)>,
    pub body: Option<String>,
}

/// The error of a response that does not count as success.
pub open spec fn http_failure_text(status: u16, body: Seq<char>) -> Seq<char> {
    "HTTP request returned status "@ + decimal(status as nat) + ": "@ + body
}

impl Default for HttpHookExecutor {
    fn default() -> (r: Self) {
        HttpHookExecutor
    }
}

impl HookExecutor for HttpHookExecutor {
    fn hook_type(&self) -> (r: HookType)
        ensures
            r == HookType::Http,
    {
        HookType::Http
    }
}

impl HttpHookExecutor {
    pub fn new() -> (r: Self) {
        HttpHookExecutor
    }

    pub fn get_http_config(hook: &HookConfig) -> (r: Option<&HttpHookConfig>)
        ensures
            match r {
                Some(c) => hook.config.http == Some(*c),
                None => hook.config.http is None,
            },
    {
        hook.config.http.as_ref()
    }

    /// Whether `status` counts as success: one of `expected`, or any 2xx
    /// status when `expected` is empty.
    pub fn is_success_status(&self, status: u16, expected: &[u16]) -> (r: bool)
        ensures
            r == status_is_success(expected@, status),
    {
        if expected.len() == 0 {
            return 200 <= status && status < 300;
        }
        let mut i: usize = 0;
        while i < expected.len()
            invariant
                i <= expected@.len(),
                forall|k: int| 0 <= k < i ==> expected@[k] != status,
            decreases expected.len() - i,
        {
            if expected[i] == status {
                assert(expected@[i as int] == status);
                return true;
            }
            i = i + 1;
        }
        false
    }

    /// The request of an HTTP hook: an error when the hook has no HTTP
    /// settings or no URL.
    pub fn prepare(hook: &HookConfig) -> (r: Result<HttpHookRequest, Error>)
        ensures
            match r {
                Ok(req) => hook.config.http matches Some(c) && c.url@.len() > 0 && {
                    &&& req.method@ == uppercase_of(c.method@)
                    &&& req.url@ == c.url@
                    &&& text_entries(req.headers@) == seq![("Content-Type"@, c.content_type@)] + text_entries(c.headers@)
                    &&& opt_view(req.body) == opt_view(c.body)
                },
                Err(e) => match hook.config.http {
                    None => is_hook_failed(e, hook.name@, "HTTP hook configuration not found"@),
                    Some(c) => c.url@.len() == 0 && is_hook_failed(e, hook.name@, "HTTP URL is required"@),
                },
            },
    {
        match Self::get_http_config(hook) {
            None => Err(hook_failed(hook.name.as_str(), "HTTP hook configuration not found")),
            Some(c) => {
                if crate::text::str_is_empty(c.url.as_str()) {
                    return Err(hook_failed(hook.name.as_str(), "HTTP URL is required"));
                }
                let mut headers: Vec<(String, String)> = Vec::new();
                headers.push((to_owned_string("Content-Type"), c.content_type.clone()));
                let mut i: usize = 0;
                while i < c.headers.len()
                    invariant
                        i <= c.headers@.len(),
                        text_entries(headers@) == seq![("Content-Type"@, c.content_type@)]
                            + text_entries(c.headers@).subrange(0, i as int),
                    decreases c.headers.len() - i,
                {
                    let ghost prev = headers@;
                    headers.push((c.headers[i].0.clone(), c.headers[i].1.clone()));
                    assert(text_entries(headers@) =~= text_entries(prev).push((c.headers@[i as int].0@, c.headers@[i as int].1@)));
                    assert(text_entries(c.headers@).subrange(0, i + 1) =~= text_entries(c.headers@).subrange(0, i as int)
                        .push((c.headers@[i as int].0@, c.headers@[i as int].1@)));
                    i = i + 1;
                }
                assert(text_entries(c.headers@).subrange(0, c.headers@.len() as int) =~= text_entries(c.headers@));
                let body = match &c.body {
                    Some(b) => Some(b.clone()),
                    None => None,
                };
                Ok(HttpHookRequest {
                    method: to_uppercase(c.method.as_str()),
                    url: c.url.clone(),
                    headers,
                    body,
                })
            },
        }
    }

    /// The error when the configured method is not a valid HTTP method.
    pub fn invalid_method_error(hook_name: &str, method: &str) -> (r: Error)
        ensures
            is_hook_failed(r, hook_name@, "Invalid HTTP method: "@ + method@),
    {
        let mut m = to_owned_string("Invalid HTTP method: ");
        push_str(&mut m, method);
        hook_failed(hook_name, m.as_str())
    }

    /// The result of a response: success with the body when its status
    /// counts as success; otherwise a failure that gives the status, with
    /// the status as exit code.
    pub fn response_result(
        &self,
        hook_name: &str,
        status: u16,
        body: String,
        expected: &[u16],
        duration: Duration,
    ) -> (r: HookResult)
        ensures
            r.name@ == hook_name@,
            r.duration == duration,
            r.success == status_is_success(expected@, status),
            r.success ==> r.output == body && r.error is None && r.exit_code == Some(0i32),
            !r.success ==> r.output@.len() == 0 && r.exit_code == Some(status as i32)
                && opt_view(r.error) == Some(http_failure_text(status, body@)),
    {
        if self.is_success_status(status, expected) {
            HookResult::success(hook_name, body, duration)
        } else {
            let mut e = to_owned_string("HTTP request returned status ");
            let s = u64_to_string(status as u64);
            push_str(&mut e, s.as_str());
            push_str(&mut e, ": ");
            push_str(&mut e, body.as_str());
            HookResult::failure(hook_name, e, duration).with_exit_code(status as i32)
        }
    }
}

} // verus!
