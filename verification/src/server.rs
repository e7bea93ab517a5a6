//! Routing of FMI calls between the Liaison client and server.
//!
//! Every FMI function that the client forwards is a query on the key
//! `rpc/<responder id>/<function name>`; the server answers the functions
//! it serves on the same keys and publishes the FMU's log messages on
//! `rpc/<responder id>/fmi3LogMessage`.
use vstd::prelude::*;

verus! {

/// The FMI functions that travel between client and server.
#[derive(Debug, Clone, Copy, PartialEq, Eq, Structural)]
pub enum FmiFunction {
    SetDebugLogging,
    InstantiateCoSimulation,
    InstantiateModelExchange,
    InstantiateScheduledExecution,
    FreeInstance,
    EnterInitializationMode,
    ExitInitializationMode,
    EnterEventMode,
    Terminate,
    Reset,
    EnterConfigurationMode,
    ExitConfigurationMode,
    DoStep,
    GetFloat32,
    SetFloat32,
    GetFloat64,
    SetFloat64,
    GetInt8,
    SetInt8,
    GetUInt8,
    SetUInt8,
    GetInt16,
    SetInt16,
    GetUInt16,
    SetUInt16,
    GetInt32,
    SetInt32,
    GetUInt32,
    SetUInt32,
    GetInt64,
    SetInt64,
    GetUInt64,
    SetUInt64,
    GetBoolean,
    SetBoolean,
    GetString,
    SetString,
    GetBinary,
    SetBinary,
    GetClock,
    SetClock,
}

/// The name of an FMI function, as the FMI standard spells it.
pub open spec fn function_name_spec(f: FmiFunction) -> Seq<char> {
    match f {
        FmiFunction::SetDebugLogging => "fmi3SetDebugLogging"@,
        FmiFunction::InstantiateCoSimulation => "fmi3InstantiateCoSimulation"@,
        FmiFunction::InstantiateModelExchange => "fmi3InstantiateModelExchange"@,
        FmiFunction::InstantiateScheduledExecution => "fmi3InstantiateScheduledExecution"@,
        FmiFunction::FreeInstance => "fmi3FreeInstance"@,
        FmiFunction::EnterInitializationMode => "fmi3EnterInitializationMode"@,
        FmiFunction::ExitInitializationMode => "fmi3ExitInitializationMode"@,
        FmiFunction::EnterEventMode => "fmi3EnterEventMode"@,
        FmiFunction::Terminate => "fmi3Terminate"@,
        FmiFunction::Reset => "fmi3Reset"@,
        FmiFunction::EnterConfigurationMode => "fmi3EnterConfigurationMode"@,
        FmiFunction::ExitConfigurationMode => "fmi3ExitConfigurationMode"@,
        FmiFunction::DoStep => "fmi3DoStep"@,
        FmiFunction::GetFloat32 => "fmi3GetFloat32"@,
        FmiFunction::SetFloat32 => "fmi3SetFloat32"@,
        FmiFunction::GetFloat64 => "fmi3GetFloat64"@,
        FmiFunction::SetFloat64 => "fmi3SetFloat64"@,
        FmiFunction::GetInt8 => "fmi3GetInt8"@,
        FmiFunction::SetInt8 => "fmi3SetInt8"@,
        FmiFunction::GetUInt8 => "fmi3GetUInt8"@,
        FmiFunction::SetUInt8 => "fmi3SetUInt8"@,
        FmiFunction::GetInt16 => "fmi3GetInt16"@,
        FmiFunction::SetInt16 => "fmi3SetInt16"@,
        FmiFunction::GetUInt16 => "fmi3GetUInt16"@,
        FmiFunction::SetUInt16 => "fmi3SetUInt16"@,
        FmiFunction::GetInt32 => "fmi3GetInt32"@,
        FmiFunction::SetInt32 => "fmi3SetInt32"@,
        FmiFunction::GetUInt32 => "fmi3GetUInt32"@,
        FmiFunction::SetUInt32 => "fmi3SetUInt32"@,
        FmiFunction::GetInt64 => "fmi3GetInt64"@,
        FmiFunction::SetInt64 => "fmi3SetInt64"@,
        FmiFunction::GetUInt64 => "fmi3GetUInt64"@,
        FmiFunction::SetUInt64 => "fmi3SetUInt64"@,
        FmiFunction::GetBoolean => "fmi3GetBoolean"@,
        FmiFunction::SetBoolean => "fmi3SetBoolean"@,
        FmiFunction::GetString => "fmi3GetString"@,
        FmiFunction::SetString => "fmi3SetString"@,
        FmiFunction::GetBinary => "fmi3GetBinary"@,
        FmiFunction::SetBinary => "fmi3SetBinary"@,
        FmiFunction::GetClock => "fmi3GetClock"@,
        FmiFunction::SetClock => "fmi3SetClock"@,
    }
}

/// Whether the server answers queries for a function.
pub open spec fn is_served_spec(f: FmiFunction) -> bool {
    !(f == FmiFunction::EnterConfigurationMode || f == FmiFunction::ExitConfigurationMode)
}

impl FmiFunction {
    /// The name of this function, as the FMI standard spells it.
    pub fn name(self) -> (n: &'static str)
        ensures
            n@ == function_name_spec(self),
    {
        match self {
            FmiFunction::SetDebugLogging => "fmi3SetDebugLogging",
            FmiFunction::InstantiateCoSimulation => "fmi3InstantiateCoSimulation",
            FmiFunction::InstantiateModelExchange => "fmi3InstantiateModelExchange",
            FmiFunction::InstantiateScheduledExecution => "fmi3InstantiateScheduledExecution",
            FmiFunction::FreeInstance => "fmi3FreeInstance",
            FmiFunction::EnterInitializationMode => "fmi3EnterInitializationMode",
            FmiFunction::ExitInitializationMode => "fmi3ExitInitializationMode",
            FmiFunction::EnterEventMode => "fmi3EnterEventMode",
            FmiFunction::Terminate => "fmi3Terminate",
            FmiFunction::Reset => "fmi3Reset",
            FmiFunction::EnterConfigurationMode => "fmi3EnterConfigurationMode",
            FmiFunction::ExitConfigurationMode => "fmi3ExitConfigurationMode",
            FmiFunction::DoStep => "fmi3DoStep",
            FmiFunction::GetFloat32 => "fmi3GetFloat32",
            FmiFunction::SetFloat32 => "fmi3SetFloat32",
            FmiFunction::GetFloat64 => "fmi3GetFloat64",
            FmiFunction::SetFloat64 => "fmi3SetFloat64",
            FmiFunction::GetInt8 => "fmi3GetInt8",
            FmiFunction::SetInt8 => "fmi3SetInt8",
            FmiFunction::GetUInt8 => "fmi3GetUInt8",
            FmiFunction::SetUInt8 => "fmi3SetUInt8",
            FmiFunction::GetInt16 => "fmi3GetInt16",
            FmiFunction::SetInt16 => "fmi3SetInt16",
            FmiFunction::GetUInt16 => "fmi3GetUInt16",
            FmiFunction::SetUInt16 => "fmi3SetUInt16",
            FmiFunction::GetInt32 => "fmi3GetInt32",
            FmiFunction::SetInt32 => "fmi3SetInt32",
            FmiFunction::GetUInt32 => "fmi3GetUInt32",
            FmiFunction::SetUInt32 => "fmi3SetUInt32",
            FmiFunction::GetInt64 => "fmi3GetInt64",
            FmiFunction::SetInt64 => "fmi3SetInt64",
            FmiFunction::GetUInt64 => "fmi3GetUInt64",
            FmiFunction::SetUInt64 => "fmi3SetUInt64",
            FmiFunction::GetBoolean => "fmi3GetBoolean",
            FmiFunction::SetBoolean => "fmi3SetBoolean",
            FmiFunction::GetString => "fmi3GetString",
            FmiFunction::SetString => "fmi3SetString",
            FmiFunction::GetBinary => "fmi3GetBinary",
            FmiFunction::SetBinary => "fmi3SetBinary",
            FmiFunction::GetClock => "fmi3GetClock",
            FmiFunction::SetClock => "fmi3SetClock",
        }
    }

    /// Whether the server answers queries for this function; it does not
    /// serve the configuration-mode functions.
    pub fn is_served(self) -> (b: bool)
        ensures
            b == is_served_spec(self),
    {
        match self {
            FmiFunction::EnterConfigurationMode => false,
            FmiFunction::ExitConfigurationMode => false,
            _ => true,
        }
    }
}

/// The functions that the server answers, in the order in which it declares
/// them.
pub open spec fn served_functions_spec() -> Seq<FmiFunction> {
    seq![
        FmiFunction::SetDebugLogging,
        FmiFunction::InstantiateCoSimulation,
        FmiFunction::InstantiateModelExchange,
        FmiFunction::InstantiateScheduledExecution,
        FmiFunction::EnterInitializationMode,
        FmiFunction::ExitInitializationMode,
        FmiFunction::EnterEventMode,
        FmiFunction::FreeInstance,
        FmiFunction::DoStep,
        FmiFunction::SetFloat32,
        FmiFunction::GetFloat32,
        FmiFunction::SetFloat64,
        FmiFunction::GetFloat64,
        FmiFunction::SetInt8,
        FmiFunction::GetInt8,
        FmiFunction::SetUInt8,
        FmiFunction::GetUInt8,
        FmiFunction::SetInt16,
        FmiFunction::GetInt16,
        FmiFunction::SetUInt16,
        FmiFunction::GetUInt16,
        FmiFunction::SetInt32,
        FmiFunction::GetInt32,
        FmiFunction::SetUInt32,
        FmiFunction::GetUInt32,
        FmiFunction::SetInt64,
        FmiFunction::GetInt64,
        FmiFunction::SetUInt64,
        FmiFunction::GetUInt64,
        FmiFunction::SetBoolean,
        FmiFunction::GetBoolean,
        FmiFunction::SetString,
        FmiFunction::GetString,
        FmiFunction::SetClock,
        FmiFunction::GetClock,
        FmiFunction::SetBinary,
        FmiFunction::GetBinary,
        FmiFunction::Reset,
        FmiFunction::Terminate,
    ]
}

/// The functions that the server answers, in the order in which it declares
/// them.
pub fn served_functions() -> (r: Vec<FmiFunction>)
    ensures
        r@ == served_functions_spec(),
{
    let mut r = Vec::new();
    r.push(FmiFunction::SetDebugLogging);
    r.push(FmiFunction::InstantiateCoSimulation);
    r.push(FmiFunction::InstantiateModelExchange);
    r.push(FmiFunction::InstantiateScheduledExecution);
    r.push(FmiFunction::EnterInitializationMode);
    r.push(FmiFunction::ExitInitializationMode);
    r.push(FmiFunction::EnterEventMode);
    r.push(FmiFunction::FreeInstance);
    r.push(FmiFunction::DoStep);
    r.push(FmiFunction::SetFloat32);
    r.push(FmiFunction::GetFloat32);
    r.push(FmiFunction::SetFloat64);
    r.push(FmiFunction::GetFloat64);
    r.push(FmiFunction::SetInt8);
    r.push(FmiFunction::GetInt8);
    r.push(FmiFunction::SetUInt8);
    r.push(FmiFunction::GetUInt8);
    r.push(FmiFunction::SetInt16);
    r.push(FmiFunction::GetInt16);
    r.push(FmiFunction::SetUInt16);
    r.push(FmiFunction::GetUInt16);
    r.push(FmiFunction::SetInt32);
    r.push(FmiFunction::GetInt32);
    r.push(FmiFunction::SetUInt32);
    r.push(FmiFunction::GetUInt32);
    r.push(FmiFunction::SetInt64);
    r.push(FmiFunction::GetInt64);
    r.push(FmiFunction::SetUInt64);
    r.push(FmiFunction::GetUInt64);
    r.push(FmiFunction::SetBoolean);
    r.push(FmiFunction::GetBoolean);
    r.push(FmiFunction::SetString);
    r.push(FmiFunction::GetString);
    r.push(FmiFunction::SetClock);
    r.push(FmiFunction::GetClock);
    r.push(FmiFunction::SetBinary);
    r.push(FmiFunction::GetBinary);
    r.push(FmiFunction::Reset);
    r.push(FmiFunction::Terminate);
    r
}

/// The key on which a function of a responder is queried:
/// `rpc/<responder id>/<function name>`.
pub open spec fn query_key_spec(responder_id: Seq<char>, name: Seq<char>) -> Seq<char> {
    "rpc/"@ + responder_id + "/"@ + name
}

/// The key on which `function` of the server `responder_id` is queried.
pub fn queryable_key(responder_id: &str, function: FmiFunction) -> (k: String)
    ensures
        k@ == query_key_spec(responder_id@, function_name_spec(function)),
{
    let mut k = String::from_str("rpc/");
    k.append(responder_id);
    k.append("/");
    k.append(function.name());
    k
}

/// The key on which the server `responder_id` publishes the FMU's log
/// messages.
pub fn log_message_key(responder_id: &str) -> (k: String)
    ensures
        k@ == query_key_spec(responder_id@, "fmi3LogMessage"@),
{
    let mut k = String::from_str("rpc/");
    k.append(responder_id);
    k.append("/");
    k.append("fmi3LogMessage");
    k
}

/// The server answers exactly the functions in its declaration list: every
/// function it declares is served, and every served function is declared.
pub proof fn lemma_served_functions_complete(f: FmiFunction)
    ensures
        is_served_spec(f) <==> served_functions_spec().contains(f),
{
    let s = served_functions_spec();
    if is_served_spec(f) {
        match f {
            FmiFunction::SetDebugLogging => assert(s[0] == f),
            FmiFunction::InstantiateCoSimulation => assert(s[1] == f),
            FmiFunction::InstantiateModelExchange => assert(s[2] == f),
            FmiFunction::InstantiateScheduledExecution => assert(s[3] == f),
            FmiFunction::FreeInstance => assert(s[7] == f),
            FmiFunction::EnterInitializationMode => assert(s[4] == f),
            FmiFunction::ExitInitializationMode => assert(s[5] == f),
            FmiFunction::EnterEventMode => assert(s[6] == f),
            FmiFunction::Terminate => assert(s[38] == f),
            FmiFunction::Reset => assert(s[37] == f),
            FmiFunction::DoStep => assert(s[8] == f),
            FmiFunction::GetFloat32 => assert(s[10] == f),
            FmiFunction::SetFloat32 => assert(s[9] == f),
            FmiFunction::GetFloat64 => assert(s[12] == f),
            FmiFunction::SetFloat64 => assert(s[11] == f),
            FmiFunction::GetInt8 => assert(s[14] == f),
            FmiFunction::SetInt8 => assert(s[13] == f),
            FmiFunction::GetUInt8 => assert(s[16] == f),
            FmiFunction::SetUInt8 => assert(s[15] == f),
            FmiFunction::GetInt16 => assert(s[18] == f),
            FmiFunction::SetInt16 => assert(s[17] == f),
            FmiFunction::GetUInt16 => assert(s[20] == f),
            FmiFunction::SetUInt16 => assert(s[19] == f),
            FmiFunction::GetInt32 => assert(s[22] == f),
            FmiFunction::SetInt32 => assert(s[21] == f),
            FmiFunction::GetUInt32 => assert(s[24] == f),
            FmiFunction::SetUInt32 => assert(s[23] == f),
            FmiFunction::GetInt64 => assert(s[26] == f),
            FmiFunction::SetInt64 => assert(s[25] == f),
            FmiFunction::GetUInt64 => assert(s[28] == f),
            FmiFunction::SetUInt64 => assert(s[27] == f),
            FmiFunction::GetBoolean => assert(s[30] == f),
            FmiFunction::SetBoolean => assert(s[29] == f),
            FmiFunction::GetString => assert(s[32] == f),
            FmiFunction::SetString => assert(s[31] == f),
            FmiFunction::GetBinary => assert(s[36] == f),
            FmiFunction::SetBinary => assert(s[35] == f),
            FmiFunction::GetClock => assert(s[34] == f),
            FmiFunction::SetClock => assert(s[33] == f),
            _ => {},
        }
    } else {
        assert forall|i: int| 0 <= i < s.len() implies s[i] != f by {}
    }
}

/// Every function is served under its name in the FMI 3.0 standard: `fmi3`
/// followed by the function's own name, so a query for a function reaches
/// that function and no other.
pub proof fn lemma_function_names_follow_the_standard()
    ensures
        function_name_spec(FmiFunction::SetDebugLogging) == "fmi3SetDebugLogging"@,
        function_name_spec(FmiFunction::InstantiateCoSimulation) == "fmi3InstantiateCoSimulation"@,
        function_name_spec(FmiFunction::InstantiateModelExchange) == "fmi3InstantiateModelExchange"@,
        function_name_spec(FmiFunction::InstantiateScheduledExecution) == "fmi3InstantiateScheduledExecution"@,
        function_name_spec(FmiFunction::FreeInstance) == "fmi3FreeInstance"@,
        function_name_spec(FmiFunction::EnterInitializationMode) == "fmi3EnterInitializationMode"@,
        function_name_spec(FmiFunction::ExitInitializationMode) == "fmi3ExitInitializationMode"@,
        function_name_spec(FmiFunction::EnterEventMode) == "fmi3EnterEventMode"@,
        function_name_spec(FmiFunction::Terminate) == "fmi3Terminate"@,
        function_name_spec(FmiFunction::Reset) == "fmi3Reset"@,
        function_name_spec(FmiFunction::EnterConfigurationMode) == "fmi3EnterConfigurationMode"@,
        function_name_spec(FmiFunction::ExitConfigurationMode) == "fmi3ExitConfigurationMode"@,
        function_name_spec(FmiFunction::DoStep) == "fmi3DoStep"@,
        function_name_spec(FmiFunction::GetFloat32) == "fmi3GetFloat32"@,
        function_name_spec(FmiFunction::SetFloat32) == "fmi3SetFloat32"@,
        function_name_spec(FmiFunction::GetFloat64) == "fmi3GetFloat64"@,
        function_name_spec(FmiFunction::SetFloat64) == "fmi3SetFloat64"@,
        function_name_spec(FmiFunction::GetInt8) == "fmi3GetInt8"@,
        function_name_spec(FmiFunction::SetInt8) == "fmi3SetInt8"@,
        function_name_spec(FmiFunction::GetUInt8) == "fmi3GetUInt8"@,
        function_name_spec(FmiFunction::SetUInt8) == "fmi3SetUInt8"@,
        function_name_spec(FmiFunction::GetInt16) == "fmi3GetInt16"@,
        function_name_spec(FmiFunction::SetInt16) == "fmi3SetInt16"@,
        function_name_spec(FmiFunction::GetUInt16) == "fmi3GetUInt16"@,
        function_name_spec(FmiFunction::SetUInt16) == "fmi3SetUInt16"@,
        function_name_spec(FmiFunction::GetInt32) == "fmi3GetInt32"@,
        function_name_spec(FmiFunction::SetInt32) == "fmi3SetInt32"@,
        function_name_spec(FmiFunction::GetUInt32) == "fmi3GetUInt32"@,
        function_name_spec(FmiFunction::SetUInt32) == "fmi3SetUInt32"@,
        function_name_spec(FmiFunction::GetInt64) == "fmi3GetInt64"@,
        function_name_spec(FmiFunction::SetInt64) == "fmi3SetInt64"@,
        function_name_spec(FmiFunction::GetUInt64) == "fmi3GetUInt64"@,
        function_name_spec(FmiFunction::SetUInt64) == "fmi3SetUInt64"@,
        function_name_spec(FmiFunction::GetBoolean) == "fmi3GetBoolean"@,
        function_name_spec(FmiFunction::SetBoolean) == "fmi3SetBoolean"@,
        function_name_spec(FmiFunction::GetString) == "fmi3GetString"@,
        function_name_spec(FmiFunction::SetString) == "fmi3SetString"@,
        function_name_spec(FmiFunction::GetBinary) == "fmi3GetBinary"@,
        function_name_spec(FmiFunction::SetBinary) == "fmi3SetBinary"@,
        function_name_spec(FmiFunction::GetClock) == "fmi3GetClock"@,
        function_name_spec(FmiFunction::SetClock) == "fmi3SetClock"@,
{
}

/// Distinct FMI functions have distinct names.
pub proof fn lemma_function_names_distinct(f: FmiFunction, g: FmiFunction)
    requires
        f != g,
    ensures
        function_name_spec(f) != function_name_spec(g),
{
    reveal_strlit("fmi3SetDebugLogging");
    reveal_strlit("fmi3InstantiateCoSimulation");
    reveal_strlit("fmi3InstantiateModelExchange");
    reveal_strlit("fmi3InstantiateScheduledExecution");
    reveal_strlit("fmi3FreeInstance");
    reveal_strlit("fmi3EnterInitializationMode");
    reveal_strlit("fmi3ExitInitializationMode");
    reveal_strlit("fmi3EnterEventMode");
    reveal_strlit("fmi3Terminate");
    reveal_strlit("fmi3Reset");
    reveal_strlit("fmi3EnterConfigurationMode");
    reveal_strlit("fmi3ExitConfigurationMode");
    reveal_strlit("fmi3DoStep");
    reveal_strlit("fmi3GetFloat32");
    reveal_strlit("fmi3SetFloat32");
    reveal_strlit("fmi3GetFloat64");
    reveal_strlit("fmi3SetFloat64");
    reveal_strlit("fmi3GetInt8");
    reveal_strlit("fmi3SetInt8");
    reveal_strlit("fmi3GetUInt8");
    reveal_strlit("fmi3SetUInt8");
    reveal_strlit("fmi3GetInt16");
    reveal_strlit("fmi3SetInt16");
    reveal_strlit("fmi3GetUInt16");
    reveal_strlit("fmi3SetUInt16");
    reveal_strlit("fmi3GetInt32");
    reveal_strlit("fmi3SetInt32");
    reveal_strlit("fmi3GetUInt32");
    reveal_strlit("fmi3SetUInt32");
    reveal_strlit("fmi3GetInt64");
    reveal_strlit("fmi3SetInt64");
    reveal_strlit("fmi3GetUInt64");
    reveal_strlit("fmi3SetUInt64");
    reveal_strlit("fmi3GetBoolean");
    reveal_strlit("fmi3SetBoolean");
    reveal_strlit("fmi3GetString");
    reveal_strlit("fmi3SetString");
    reveal_strlit("fmi3GetBinary");
    reveal_strlit("fmi3SetBinary");
    reveal_strlit("fmi3GetClock");
    reveal_strlit("fmi3SetClock");
    reveal_strlit("fmi3LogMessage");
    let nf = function_name_spec(f);
    let ng = function_name_spec(g);
    if nf == ng {
        assert(nf[4] == ng[4]);
        assert(nf[11] == ng[11]);
        if nf.len() > 12 {
            assert(nf[12] == ng[12]);
        }
    }
}

/// The log message topic is named like no FMI function.
pub proof fn lemma_log_topic_is_no_function_name(f: FmiFunction)
    ensures
        function_name_spec(f) != "fmi3LogMessage"@,
{
    reveal_strlit("fmi3SetDebugLogging");
    reveal_strlit("fmi3InstantiateCoSimulation");
    reveal_strlit("fmi3InstantiateModelExchange");
    reveal_strlit("fmi3InstantiateScheduledExecution");
    reveal_strlit("fmi3FreeInstance");
    reveal_strlit("fmi3EnterInitializationMode");
    reveal_strlit("fmi3ExitInitializationMode");
    reveal_strlit("fmi3EnterEventMode");
    reveal_strlit("fmi3Terminate");
    reveal_strlit("fmi3Reset");
    reveal_strlit("fmi3EnterConfigurationMode");
    reveal_strlit("fmi3ExitConfigurationMode");
    reveal_strlit("fmi3DoStep");
    reveal_strlit("fmi3GetFloat32");
    reveal_strlit("fmi3SetFloat32");
    reveal_strlit("fmi3GetFloat64");
    reveal_strlit("fmi3SetFloat64");
    reveal_strlit("fmi3GetInt8");
    reveal_strlit("fmi3SetInt8");
    reveal_strlit("fmi3GetUInt8");
    reveal_strlit("fmi3SetUInt8");
    reveal_strlit("fmi3GetInt16");
    reveal_strlit("fmi3SetInt16");
    reveal_strlit("fmi3GetUInt16");
    reveal_strlit("fmi3SetUInt16");
    reveal_strlit("fmi3GetInt32");
    reveal_strlit("fmi3SetInt32");
    reveal_strlit("fmi3GetUInt32");
    reveal_strlit("fmi3SetUInt32");
    reveal_strlit("fmi3GetInt64");
    reveal_strlit("fmi3SetInt64");
    reveal_strlit("fmi3GetUInt64");
    reveal_strlit("fmi3SetUInt64");
    reveal_strlit("fmi3GetBoolean");
    reveal_strlit("fmi3SetBoolean");
    reveal_strlit("fmi3GetString");
    reveal_strlit("fmi3SetString");
    reveal_strlit("fmi3GetBinary");
    reveal_strlit("fmi3SetBinary");
    reveal_strlit("fmi3GetClock");
    reveal_strlit("fmi3SetClock");
    reveal_strlit("fmi3LogMessage");
    let nf = function_name_spec(f);
    let nl = "fmi3LogMessage"@;
    if nf == nl {
        assert(nf[4] == nl[4]);
    }
}

/// Two keys of one responder that end in different names differ.
proof fn lemma_keys_differ_by_name(responder_id: Seq<char>, a: Seq<char>, b: Seq<char>)
    requires
        a != b,
    ensures
        query_key_spec(responder_id, a) != query_key_spec(responder_id, b),
{
    let p = "rpc/"@ + responder_id + "/"@;
    assert(query_key_spec(responder_id, a) =~= p + a);
    assert(query_key_spec(responder_id, b) =~= p + b);
    if p + a == p + b {
        assert((p + a).subrange(p.len() as int, (p + a).len() as int) =~= a);
        assert((p + b).subrange(p.len() as int, (p + b).len() as int) =~= b);
    }
}

/// Each function of a responder is queried on a key of its own, and none
/// of these keys is the one on which the responder publishes log messages.
pub proof fn lemma_query_keys_distinct(responder_id: Seq<char>, f: FmiFunction, g: FmiFunction)
    ensures
        f != g ==> query_key_spec(responder_id, function_name_spec(f)) != query_key_spec(
            responder_id,
            function_name_spec(g),
        ),
        query_key_spec(responder_id, function_name_spec(f)) != query_key_spec(
            responder_id,
            "fmi3LogMessage"@,
        ),
{
    if f != g {
        lemma_function_names_distinct(f, g);
        lemma_keys_differ_by_name(responder_id, function_name_spec(f), function_name_spec(g));
    }
    lemma_log_topic_is_no_function_name(f);
    lemma_keys_differ_by_name(responder_id, function_name_spec(f), "fmi3LogMessage"@);
}

} // verus!
