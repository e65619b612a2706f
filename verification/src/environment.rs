//! The live, capability-restricted script execution context.
//!
//! An [`Environment`] owns one instance of a restricted Lua interpreter
//! with persistent global state and a captured output buffer.  The
//! interpreter gets only the base functions (with their file loaders
//! removed) and the `coroutine`, `math`, `string`, `table` and `utf8`
//! libraries — no `io`, `os`, `package`, `debug` or `ffi`, so scripts have
//! no filesystem, network, process or reflection access — plus three
//! injected capabilities: an output-capturing `print`, a synchronous
//! `llm_query` bridge to the model collaborator, and the `token_trunc`
//! budgeting utility.  The task's initial data sits in the script global
//! `context`.

use vstd::prelude::*;

use crate::text::{join_strings, join_with, views_of};
use crate::tokens::{token_bound, TokenError};

verus! {

/// Which model backend the ask-model bridge talks to.
#[derive(Debug)]
pub enum LlmClient {
    /// A local model daemon; carries the model name.
    Ollama(String),
    /// The hosted model router; carries the model name and the API key.
    Openrouter(String, String),
}

impl Clone for LlmClient {
    /// An exact copy.
    fn clone(&self) -> (r: LlmClient)
        ensures
            r == *self,
    {
        match self {
            LlmClient::Ollama(model) => LlmClient::Ollama(model.clone()),
            LlmClient::Openrouter(model, api_key) => LlmClient::Openrouter(
                model.clone(),
                api_key.clone(),
            ),
        }
    }
}

/// The task's initial data, placed in the script global `context`.
#[derive(Debug)]
pub enum ContextValue {
    /// A text value.
    Text(String),
    /// An integral number value.
    Number(i64),
}

/// Failure of one evaluation.  None of these damages the environment:
/// state from before the failing call stays intact.
#[derive(Debug)]
pub enum ExecError {
    /// The source failed to parse.
    Syntax(String),
    /// An error was raised during execution, propagated ask-model
    /// failures included.
    Runtime(String),
    /// The ask-model bridge was invoked where no blocking-capable
    /// concurrency driver is available.
    NoRuntime,
    /// The tokenizer collaborator failed.  Returned by the direct
    /// [`token_trunc`] utility; when the failure happens inside a script,
    /// the capability raises it into the interpreter and it surfaces as
    /// [`ExecError::Runtime`].
    Tokenizer(String),
}

/// The text of a failure, as [`ExecError::message`] returns it.
pub open spec fn exec_error_text(e: ExecError) -> Seq<char> {
    match e {
        ExecError::Syntax(m) => m@,
        ExecError::Runtime(m) => m@,
        ExecError::NoRuntime => "no concurrency driver is available"@,
        ExecError::Tokenizer(m) => m@,
    }
}

impl ExecError {
    /// A human-readable description of the failure.
    pub fn message(&self) -> (r: String)
        ensures
            r@ == exec_error_text(*self),
    {
        match self {
            ExecError::Syntax(m) => m.clone(),
            ExecError::Runtime(m) => m.clone(),
            ExecError::NoRuntime => String::from_str("no concurrency driver is available"),
            ExecError::Tokenizer(m) => m.clone(),
        }
    }
}

/// The `token_trunc` capability: [`token_bound`] with its failure carried
/// as an evaluation error.
pub fn token_trunc(text: &String, max_units: usize) -> (r: Result<String, ExecError>)
    ensures
        r matches Ok(b) ==> {
            &&& crate::tokens::encode_of(text@).len() <= max_units ==> b@ == text@
            &&& crate::tokens::encode_of(text@).len() > max_units ==> {
                &&& b@ == crate::tokens::decode_of(
                    crate::tokens::encode_of(text@).take(max_units as int),
                )
                &&& b@.is_prefix_of(text@)
                &&& b@.len() < text@.len()
            }
        },
        r matches Err(e) ==> e is Tokenizer,
{
    match token_bound(text, max_units) {
        Ok(b) => Ok(b),
        Err(e) => Err(ExecError::Tokenizer(e.message())),
    }
}

/// How one print call extends the captured output: the rendered values
/// joined by tabs, on a line of their own unless nothing was captured yet.
pub open spec fn print_extended(buffer: Seq<char>, parts: Seq<Seq<char>>) -> Seq<char> {
    let line = join_with(parts, "\t"@);
    if buffer.len() == 0 {
        line
    } else {
        buffer + "\n"@ + line
    }
}

/// Extend the captured output by one print call's already-rendered values.
pub fn extend_output(buffer: &String, parts: &Vec<String>) -> (r: String)
    ensures
        r@ == print_extended(buffer@, views_of(parts@)),
{
    let line = join_strings(parts, "\t");
    if buffer.as_str().is_empty() {
        line
    } else {
        let mut r = buffer.clone();
        r.append("\n");
        r.append(line.as_str());
        assert(r@ =~= buffer@ + "\n"@ + line@);
        r
    }
}

/// Relies on `rig_core::providers::ollama::Ollama` and `tokio`: sends one
/// completion request, with thinking disabled and `system` as the preamble
/// when one is given, to a local daemon, and waits for the reply by
/// blocking only the current worker (`tokio::task::block_in_place`).
/// Without a multi-thread driver the call cannot block safely and reports
/// `NoRuntime` instead.
#[verifier::external_body]
fn ollama_prompt(model: &str, system: Option<&str>, prompt: &str) -> (r: Result<String, ExecError>)
    ensures
        r matches Err(e) ==> e is NoRuntime || e is Runtime,
{
    let handle = match tokio::runtime::Handle::try_current() {
        Ok(h) if h.runtime_flavor() == tokio::runtime::RuntimeFlavor::MultiThread => h,
        _ => return Err(ExecError::NoRuntime),
    };
    let mut params = serde_json::Map::new();
    params.insert("think".to_string(), serde_json::Value::Bool(false));
    let mut request = rig_core::completion::CompletionRequest::new(prompt.to_string())
        .additional_params(serde_json::Value::Object(params));
    if let Some(preamble) = system { request = request.preamble(preamble); }
    let reply = tokio::task::block_in_place(|| {
        handle.block_on(rig_core::providers::ollama::Ollama::new().completion(model).call(request))
    });
    reply.map(|resp| resp.text()).map_err(|e| ExecError::Runtime(format!("LLM query failed: {e}")))
}

/// Relies on `rig_core::providers::openrouter` and `tokio`: as
/// [`ollama_prompt`], against the hosted router with the given API key.
#[verifier::external_body]
fn openrouter_prompt(
    model: &str,
    api_key: &str,
    system: Option<&str>,
    prompt: &str,
) -> (r: Result<String, ExecError>)
    ensures
        r matches Err(e) ==> e is NoRuntime || e is Runtime,
{
    let handle = match tokio::runtime::Handle::try_current() {
        Ok(h) if h.runtime_flavor() == tokio::runtime::RuntimeFlavor::MultiThread => h,
        _ => return Err(ExecError::NoRuntime),
    };
    let mut request = rig_core::completion::CompletionRequest::new(prompt.to_string());
    if let Some(preamble) = system { request = request.preamble(preamble); }
    let reply = tokio::task::block_in_place(|| {
        handle.block_on(
            rig_core::providers::openrouter::new(api_key).completion(model).call(request),
        )
    });
    reply.map(|resp| resp.text()).map_err(|e| ExecError::Runtime(format!("LLM query failed: {e}")))
}

/// Send one prompt to the configured backend, under `system` as the
/// conversation's system instruction when one is given, and return the
/// response text.  It fails with [`ExecError::NoRuntime`] where no
/// blocking-capable concurrency driver hosts the call, and surfaces
/// provider failures as [`ExecError::Runtime`]; what a reachable provider
/// answers, no contract pins down.
pub fn prompt_model(client: &LlmClient, system: Option<&str>, prompt: &str) -> (r: Result<
    String,
    ExecError,
>)
    ensures
        r matches Err(e) ==> e is NoRuntime || e is Runtime,
{
    match client {
        LlmClient::Ollama(model) => ollama_prompt(model.as_str(), system, prompt),
        LlmClient::Openrouter(model, api_key) => openrouter_prompt(
            model.as_str(),
            api_key.as_str(),
            system,
            prompt,
        ),
    }
}

/// The ask-model capability: send one prompt to the configured backend and
/// return the response text.  The model sees nothing but the prompt, no
/// script global included; callers inline what they need.
pub fn ask_model(client: &LlmClient, prompt: &str) -> (r: Result<String, ExecError>)
    ensures
        r matches Err(e) ==> e is NoRuntime || e is Runtime,
{
    prompt_model(client, None, prompt)
}

/// The Lua interpreter of mlua.  Which standard libraries a state holds is
/// decided at construction; see [`lua_new`].
#[verifier::external_type_specification]
#[verifier::external_body]
pub struct ExLua(mlua::Lua);

/// `std::sync::Mutex`, which vstd gives no specification.
#[verifier::external_type_specification]
#[verifier::external_body]
#[verifier::reject_recursive_types(T)]
pub struct ExMutex<T: ?Sized>(std::sync::Mutex<T>);

/// Relies on `mlua::Lua::new_with` and `Table::set`: a fresh interpreter
/// holding only the `coroutine`, `math`, `string`, `table` and `utf8`
/// libraries beside the base functions, whose file loaders `dofile` and
/// `loadfile` are removed — no filesystem, network, process or reflection
/// access remains reachable from a script.
#[verifier::external_body]
fn lua_new() -> (r: Result<mlua::Lua, ExecError>) {
    let libs = mlua::StdLib::COROUTINE | mlua::StdLib::MATH | mlua::StdLib::STRING
        | mlua::StdLib::TABLE | mlua::StdLib::UTF8;
    let lua = mlua::Lua::new_with(libs, mlua::LuaOptions::default())
        .map_err(|e| ExecError::Runtime(format!("{e}")))?;
    lua.globals().set("dofile", mlua::Nil).map_err(|e| ExecError::Runtime(format!("{e}")))?;
    lua.globals().set("loadfile", mlua::Nil).map_err(|e| ExecError::Runtime(format!("{e}")))?;
    Ok(lua)
}

/// Relies on `std::sync::Mutex::new`: a fresh shared output buffer,
/// initially empty.
#[verifier::external_body]
fn new_buffer() -> std::sync::Arc<std::sync::Mutex<String>> {
    std::sync::Arc::new(std::sync::Mutex::new(String::new()))
}

/// Relies on `mlua::Lua::create_function` and `Table::set`: installs the
/// capturing `print`.  The handed closure renders each argument with the
/// interpreter's native value-to-string conversion and then extends the
/// buffer through the verified [`extend_output`].
#[verifier::external_body]
fn register_print(
    lua: &mlua::Lua,
    buffer: &std::sync::Arc<std::sync::Mutex<String>>,
) -> (r: Result<(), ExecError>) {
    let buf = std::sync::Arc::clone(buffer);
    let f = lua
        .create_function(move |_, args: mlua::Variadic<mlua::Value>| {
            let parts: Vec<String> =
                args.iter().map(|v| v.to_string().unwrap_or_else(|_| format!("{v:?}"))).collect();
            let mut guard = buf.lock().unwrap();
            let current = guard.clone();
            *guard = extend_output(&current, &parts);
            Ok(())
        })
        .map_err(|e| ExecError::Runtime(format!("{e}")))?;
    lua.globals().set("print", f).map_err(|e| ExecError::Runtime(format!("{e}")))
}

/// Relies on `mlua::Lua::create_function` and `Table::set`: installs the
/// `llm_query` bridge.  The handed closure calls [`ask_model`] and raises
/// its failure into the script as a runtime error.
#[verifier::external_body]
fn register_ask_model(lua: &mlua::Lua, client: &LlmClient) -> (r: Result<(), ExecError>) {
    let client = client.clone();
    let f = lua
        .create_function(move |_, prompt: String| {
            match ask_model(&client, prompt.as_str()) {
                Ok(resp) => Ok(resp),
                Err(e) => Err(mlua::Error::RuntimeError(e.message())),
            }
        })
        .map_err(|e| ExecError::Runtime(format!("{e}")))?;
    lua.globals().set("llm_query", f).map_err(|e| ExecError::Runtime(format!("{e}")))
}

/// Relies on `mlua::Lua::create_function` and `Table::set`: installs
/// `token_trunc`.  The handed closure calls the verified [`token_trunc`]
/// and raises its failure into the script as a runtime error.
#[verifier::external_body]
fn register_token_trunc(lua: &mlua::Lua) -> (r: Result<(), ExecError>) {
    let f = lua
        .create_function(|_, (text, max_units): (String, usize)| {
            match token_trunc(&text, max_units) {
                Ok(bounded) => Ok(bounded),
                Err(e) => Err(mlua::Error::RuntimeError(e.message())),
            }
        })
        .map_err(|e| ExecError::Runtime(format!("{e}")))?;
    lua.globals().set("token_trunc", f).map_err(|e| ExecError::Runtime(format!("{e}")))
}

/// Relies on `mlua::Table::set`: binds the script global `context` to the
/// initial task data, converted variant by variant.
#[verifier::external_body]
fn set_context(lua: &mlua::Lua, value: &ContextValue) -> (r: Result<(), ExecError>) {
    let outcome = match value {
        ContextValue::Text(s) => lua.globals().set("context", s.as_str()),
        ContextValue::Number(n) => lua.globals().set("context", *n),
    };
    outcome.map_err(|e| ExecError::Runtime(format!("{e}")))
}

/// Relies on `mlua::Lua::load` and `Chunk::exec`: runs `code` to completion
/// or failure against the interpreter's persistent globals, converting the
/// error variant by variant.  A failing chunk leaves state from before the
/// call intact; only its own effects are in doubt.
#[verifier::external_body]
fn lua_exec(lua: &mlua::Lua, code: &str) -> (r: Result<(), ExecError>) {
    match lua.load(code).exec() {
        Ok(()) => Ok(()),
        Err(mlua::Error::SyntaxError { message, .. }) => Err(ExecError::Syntax(message)),
        Err(other) => Err(ExecError::Runtime(format!("{other}"))),
    }
}

/// Relies on `std::sync::Mutex::lock` and `String::clear`: empties the
/// shared output buffer.
#[verifier::external_body]
fn buffer_clear(buffer: &std::sync::Arc<std::sync::Mutex<String>>) {
    buffer.lock().unwrap().clear();
}

/// Relies on `std::sync::Mutex::lock` and `String::clone`: the current
/// contents of the shared output buffer.
#[verifier::external_body]
fn buffer_read(buffer: &std::sync::Arc<std::sync::Mutex<String>>) -> String {
    buffer.lock().unwrap().clone()
}

/// Dispatch one captured buffer: code that printed nothing yields `None`,
/// never an empty string, and captured text is handed on exactly, so
/// callers can distinguish "no output" from "explicit empty output".
pub fn captured_output(buffer: String) -> (r: Option<String>)
    ensures
        r is None <==> buffer@.len() == 0,
        r matches Some(s) ==> s@ == buffer@,
{
    if buffer.as_str().is_empty() {
        None
    } else {
        Some(buffer)
    }
}

/// Mathematical image of an [`Environment`]: what it was built with.  The
/// interpreter's own state has no mathematical image.
pub ghost struct EnvironmentView {
    pub context: ContextValue,
    pub client: LlmClient,
}

/// The live interpreter state: one restricted interpreter and the output
/// buffer its `print` capability writes to.
pub struct Environment {
    lua: mlua::Lua,
    buffer: std::sync::Arc<std::sync::Mutex<String>>,
    config: Ghost<EnvironmentView>,
}

impl View for Environment {
    type V = EnvironmentView;

    closed spec fn view(&self) -> EnvironmentView {
        self.config@
    }
}

impl Environment {
    /// A fresh environment: a restricted interpreter whose globals hold the
    /// three injected capabilities and the binding `context` with the
    /// initial task data, and whose ask-model bridge talks to the backend
    /// `client` names.
    pub fn new(init_context: ContextValue, client: LlmClient) -> (r: Result<
        Environment,
        ExecError,
    >)
        ensures
            r matches Ok(env) ==> {
                &&& env@.context == init_context
                &&& env@.client == client
            },
    {
        let lua = lua_new()?;
        let buffer = new_buffer();
        register_print(&lua, &buffer)?;
        register_ask_model(&lua, &client)?;
        register_token_trunc(&lua)?;
        set_context(&lua, &init_context)?;
        Ok(
            Environment {
                lua,
                buffer,
                config: Ghost(EnvironmentView { context: init_context, client }),
            },
        )
    }

    /// Evaluate `code` against the live interpreter state and return what
    /// it printed.  The output buffer is cleared first and read after, so
    /// the call is atomic with respect to it; what was captured is
    /// dispatched by [`captured_output`], so code that printed nothing
    /// yields `None`, never an empty string.  A failure is returned, not
    /// raised, and leaves state from before the call intact.
    pub fn eval(&self, code: &str) -> (r: Result<Option<String>, ExecError>)
        ensures
            r matches Ok(Some(out)) ==> out@.len() > 0,
    {
        buffer_clear(&self.buffer);
        match lua_exec(&self.lua, code) {
            Err(e) => Err(e),
            Ok(()) => Ok(captured_output(buffer_read(&self.buffer))),
        }
    }
}

} // verus!
