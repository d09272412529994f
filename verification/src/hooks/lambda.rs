//! Hooks run as AWS Lambda invocations: which function is invoked and how,
//! and how the invocation's response is recorded.

use vstd::prelude::*;
use core::time::Duration;
use crate::error::Error;
use crate::text::{
    clone_opt_string, opt_view, opt_view_or_empty, push_str, signed_decimal, i64_to_string,
    str_eq, to_owned_string, to_uppercase, uppercase_of,
};
use super::executor::{hook_failed, is_hook_failed, HookContext, HookExecutor, HookResult};
use super::types::{HookConfig, HookType, LambdaHookConfig};

verus! {

/// Runs hooks as Lambda invocations.
#[derive(Debug, Clone, Copy)]
pub struct LambdaHookExecutor;

/// How a Lambda function is invoked.
#[derive(Debug, Clone, Copy, PartialEq, Eq, Structural)]
pub enum LambdaInvocation {
    RequestResponse,
    Event,
    DryRun,
}

/// The invocation a configured invocation type names: "EVENT", or
/// "DRYRUN" / "DRY_RUN", in any case; anything else is a request-response
/// invocation.
pub open spec fn invocation_for(invocation_type: Seq<char>) -> LambdaInvocation {
    let u = uppercase_of(invocation_type);
    if u == "EVENT"@ {
        LambdaInvocation::Event
    } else if u == "DRYRUN"@ || u == "DRY_RUN"@ {
        LambdaInvocation::DryRun
    } else {
        LambdaInvocation::RequestResponse
    }
}

/// An invocation a Lambda hook makes.
#[derive(Debug, Clone)]
pub struct LambdaHookInvocation {
    pub function_name: String,
    /// Region of the hook, else of the context.
    pub region: Option<String>,
    pub invocation: LambdaInvocation,
    pub payload: Option<String>,
    pub qualifier: Option<String>,
}

/// The function a Lambda hook invokes: the deployed function when it
/// invokes itself, else the configured ARN.
pub open spec fn hook_function(config: LambdaHookConfig, context: HookContext) -> Option<Seq<char>> {
    if config.invoke_self { opt_view(context.lambda_function) } else { opt_view(config.function_arn) }
}

impl Default for LambdaHookExecutor {
    fn default() -> (r: Self) {
        LambdaHookExecutor
    }
}

impl HookExecutor for LambdaHookExecutor {
    fn hook_type(&self) -> (r: HookType)
        ensures
            r == HookType::Lambda,
    {
        HookType::Lambda
    }
}

impl LambdaHookExecutor {
    pub fn new() -> (r: Self) {
        LambdaHookExecutor
    }

    pub fn get_lambda_config(hook: &HookConfig) -> (r: Option<&LambdaHookConfig>)
        ensures
            match r {
                Some(c) => hook.config.lambda == Some(*c),
                None => hook.config.lambda is None,
            },
    {
        hook.config.lambda.as_ref()
    }

    pub fn determine_function_name(&self, config: &LambdaHookConfig, context: &HookContext) -> (r: Option<String>)
        ensures
            opt_view(r) == hook_function(*config, *context),
    {
        if config.invoke_self {
            clone_opt_string(&context.lambda_function)
        } else {
            clone_opt_string(&config.function_arn)
        }
    }

    pub fn invocation_type(invocation_type: &str) -> (r: LambdaInvocation)
        ensures
            r == invocation_for(invocation_type@),
    {
        let u = to_uppercase(invocation_type);
        if str_eq(u.as_str(), "EVENT") {
            LambdaInvocation::Event
        } else if str_eq(u.as_str(), "DRYRUN") || str_eq(u.as_str(), "DRY_RUN") {
            LambdaInvocation::DryRun
        } else {
            LambdaInvocation::RequestResponse
        }
    }

    /// The invocation of a Lambda hook: an error when the hook has no
    /// Lambda settings, names no function and does not invoke itself, or
    /// invokes itself where the context names no function.
    pub fn prepare(&self, hook: &HookConfig, context: &HookContext) -> (r: Result<LambdaHookInvocation, Error>)
        ensures
            match r {
                Ok(inv) => hook.config.lambda matches Some(c) && {
                    &&& hook_function(c, *context) == Some(inv.function_name@)
                    &&& opt_view(inv.region) == (if c.region is Some { opt_view(c.region) } else { opt_view(context.aws_region) })
                    &&& inv.invocation == invocation_for(c.invocation_type@)
                    &&& opt_view(inv.payload) == opt_view(c.payload)
                    &&& opt_view(inv.qualifier) == opt_view(c.qualifier)
                },
                Err(e) => match hook.config.lambda {
                    None => is_hook_failed(e, hook.name@, "Lambda hook configuration not found"@),
                    Some(c) => if !c.invoke_self && c.function_arn is None {
                        is_hook_failed(e, hook.name@, "Either function_arn or invoke_self must be specified"@)
                    } else {
                        hook_function(c, *context) is None && is_hook_failed(e, hook.name@,
                            "Lambda function ARN not specified and invoke_self requires function context"@)
                    },
                },
            },
    {
        let c = match Self::get_lambda_config(hook) {
            None => return Err(hook_failed(hook.name.as_str(), "Lambda hook configuration not found")),
            Some(c) => c,
        };
        if !c.invoke_self && c.function_arn.is_none() {
            return Err(hook_failed(hook.name.as_str(), "Either function_arn or invoke_self must be specified"));
        }
        let function_name = match self.determine_function_name(c, context) {
            None => return Err(hook_failed(
                hook.name.as_str(),
                "Lambda function ARN not specified and invoke_self requires function context",
            )),
            Some(f) => f,
        };
        let region = if c.region.is_some() {
            clone_opt_string(&c.region)
        } else {
            clone_opt_string(&context.aws_region)
        };
        Ok(LambdaHookInvocation {
            function_name,
            region,
            invocation: Self::invocation_type(c.invocation_type.as_str()),
            payload: clone_opt_string(&c.payload),
            qualifier: clone_opt_string(&c.qualifier),
        })
    }

    /// The result of an invocation. A function error fails the hook with
    /// exit code 1 and the response payload (or the error's name when there
    /// is none). Otherwise a 2xx status, or any status of an asynchronous
    /// (event) invocation, succeeds with the payload; other statuses fail.
    /// The status is the exit code in both cases.
    pub fn invocation_result(
        hook_name: &str,
        invocation: LambdaInvocation,
        function_error: Option<String>,
        status_code: i32,
        payload: Option<String>,
        duration: Duration,
    ) -> (r: HookResult)
        ensures
            r.name@ == hook_name@,
            r.duration == duration,
            match function_error {
                Some(fe) => !r.success && r.exit_code == Some(1i32) && r.output@.len() == 0
                    && opt_view(r.error) == Some("Lambda function error: "@
                        + (match payload { Some(p) => p@, None => fe@ })),
                None => {
                    &&& r.success == ((200 <= status_code < 300) || invocation == LambdaInvocation::Event)
                    &&& r.exit_code == Some(status_code)
                    &&& r.success ==> r.output@ == opt_view_or_empty(payload) && r.error is None
                    &&& !r.success ==> r.output@.len() == 0 && opt_view(r.error) == Some(
                        "Lambda returned status "@ + signed_decimal(status_code as int) + ": "@
                            + opt_view_or_empty(payload))
                },
            },
    {
        match function_error {
            Some(fe) => {
                let mut e = to_owned_string("Lambda function error: ");
                match &payload {
                    Some(p) => push_str(&mut e, p.as_str()),
                    None => push_str(&mut e, fe.as_str()),
                }
                HookResult::failure(hook_name, e, duration).with_exit_code(1)
            },
            None => {
                let body = match payload {
                    Some(p) => p,
                    None => String::new(),
                };
                if (200 <= status_code && status_code < 300) || invocation == LambdaInvocation::Event {
                    HookResult::success(hook_name, body, duration).with_exit_code(status_code)
                } else {
                    let mut e = to_owned_string("Lambda returned status ");
                    let s = i64_to_string(status_code as i64);
                    push_str(&mut e, s.as_str());
                    push_str(&mut e, ": ");
                    push_str(&mut e, body.as_str());
                    HookResult::failure(hook_name, e, duration).with_exit_code(status_code)
                }
            },
        }
    }
}

} // verus!
