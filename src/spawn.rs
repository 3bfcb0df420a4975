//! The decisions taken when an actor asks for a new actor: validation of the
//! request, the launch plan, and the acknowledgement sent back.
use vstd::prelude::*;
use vstd::string::*;

use crate::ids::{hyphenated, random_id, ActorId, MAX_DRAWS};
use crate::placeholder::{actor_id_placeholder, substitute_actor_id, substituted};
use crate::registry::Registry;
use crate::wire::{make_string_field_object, string_field_object, Data, Message, Props};

verus! {

/// Why a spawn request was refused before any process was created.
pub enum LaunchError {
    /// The path does not name an existing regular file.
    NotAFile(String),
    /// The file cannot be executed by the supervisor.
    NotExecutable(String),
    /// The id drawn for the new actor is already in use.
    NoFreshId,
}

/// The text sent back to the requester for each refusal.
pub open spec fn error_text(e: LaunchError) -> Seq<char> {
    match e {
        LaunchError::NotAFile(p) => p@ + " is not a file"@,
        LaunchError::NotExecutable(p) => p@ + " is not an executable file"@,
        LaunchError::NoFreshId => "no fresh actor id could be drawn"@,
    }
}

impl LaunchError {
    /// The refusal as text, as the requester receives it.
    pub fn message(&self) -> (r: String)
        ensures
            r@ == error_text(*self),
    {
        match self {
            LaunchError::NotAFile(p) => {
                let mut s = p.clone();
                s.append(" is not a file");
                s
            },
            LaunchError::NotExecutable(p) => {
                let mut s = p.clone();
                s.append(" is not an executable file");
                s
            },
            LaunchError::NoFreshId => String::from_str("no fresh actor id could be drawn"),
        }
    }
}

/// The refusal owed to `props`, given what the file system says of its path:
/// first that it is a regular file, then that it is executable.
pub open spec fn refusal(props: Props, is_file: bool, is_executable: bool) -> Option<LaunchError> {
    if !is_file {
        Some(LaunchError::NotAFile(props.executable))
    } else if !is_executable {
        Some(LaunchError::NotExecutable(props.executable))
    } else {
        None
    }
}

/// Checks a spawn request against what the file system says of its path.
pub fn check_props(props: &Props, is_file: bool, is_executable: bool) -> (r: Result<(), LaunchError>)
    ensures
        match refusal(*props, is_file, is_executable) {
            None => r is Ok,
            Some(LaunchError::NotAFile(p)) => r matches Err(LaunchError::NotAFile(q)) && q@ == p@,
            Some(LaunchError::NotExecutable(p)) => r matches Err(LaunchError::NotExecutable(q))
                && q@ == p@,
            Some(LaunchError::NoFreshId) => false,
        },
{
    if !is_file {
        Err(LaunchError::NotAFile(props.executable.clone()))
    } else if !is_executable {
        Err(LaunchError::NotExecutable(props.executable.clone()))
    } else {
        Ok(())
    }
}

/// How to start one actor: its id, the program, the arguments after
/// substitution, and the first message it is sent.
pub struct LaunchPlan {
    pub id: ActorId,
    pub executable: String,
    pub args: Vec<String>,
    pub greeting: Data,
}

/// The message that tells a new actor its own id, before anything else: its
/// payload is the object `{"id": <id text>}`.
pub open spec fn greeting_for(id: ActorId) -> Data {
    Data { from: None, to: id, payload: string_field_object("id"@, hyphenated(id.0)) }
}

/// `plan` starts `props` as actor `id`: each argument has the placeholder
/// replaced by the id's text.
pub open spec fn plans(plan: LaunchPlan, props: Props, id: ActorId) -> bool {
    &&& plan.id == id
    &&& plan.executable@ == props.executable@
    &&& plan.args@.len() == props.args@.len()
    &&& forall|i: int|
        0 <= i < props.args@.len() ==> #[trigger] plan.args@[i]@ == substituted(
            props.args@[i]@,
            actor_id_placeholder(),
            hyphenated(id.0),
        )
    &&& plan.greeting == greeting_for(id)
}

/// The launch plan for `props` as actor `id`.
pub fn plan_launch(props: &Props, id: ActorId) -> (r: LaunchPlan)
    ensures
        plans(r, *props, id),
{
    let text = id.text();
    let mut args: Vec<String> = Vec::new();
    let mut i: usize = 0;
    while i < props.args.len()
        invariant
            i <= props.args@.len(),
            text@ == hyphenated(id.0),
            args@.len() == i,
            forall|j: int|
                0 <= j < i ==> #[trigger] args@[j]@ == substituted(
                    props.args@[j]@,
                    actor_id_placeholder(),
                    hyphenated(id.0),
                ),
        decreases props.args@.len() - i,
    {
        let a = substitute_actor_id(props.args[i].as_str(), text.as_str());
        args.push(a);
        i = i + 1;
    }
    let greeting = Data {
        from: None,
        to: id,
        payload: make_string_field_object(String::from_str("id"), text),
    };
    LaunchPlan { id, executable: props.executable.clone(), args, greeting }
}

/// Decides one spawn request under the id `drawn`: refuses it as
/// `check_props` does, else refuses `drawn` if it is already registered, else
/// plans the launch as actor `drawn`. Nothing is registered.
pub fn start_spawn<S>(
    registry: &Registry<S>,
    props: &Props,
    is_file: bool,
    is_executable: bool,
    drawn: ActorId,
) -> (r: Result<LaunchPlan, LaunchError>)
    ensures
        match refusal(*props, is_file, is_executable) {
            None => if registry@.contains_key(drawn.0) {
                r matches Err(LaunchError::NoFreshId)
            } else {
                r matches Ok(plan) && plans(plan, *props, drawn)
            },
            Some(LaunchError::NotAFile(p)) => r matches Err(LaunchError::NotAFile(q)) && q@ == p@,
            Some(LaunchError::NotExecutable(p)) => r matches Err(LaunchError::NotExecutable(q))
                && q@ == p@,
            Some(LaunchError::NoFreshId) => false,
        },
{
    match check_props(props, is_file, is_executable) {
        Err(e) => Err(e),
        Ok(()) => if registry.contains(drawn) {
            Err(LaunchError::NoFreshId)
        } else {
            Ok(plan_launch(props, drawn))
        },
    }
}

/// What a spawn request may come to, whatever ids are drawn for it: the
/// refusal owed to its path, else a plan under an unregistered id, else (when
/// every id drawn was in use) `NoFreshId`.
pub open spec fn spawn_outcome<S>(
    registry: Map<u128, S>,
    props: Props,
    is_file: bool,
    is_executable: bool,
    r: Result<LaunchPlan, LaunchError>,
) -> bool {
    match refusal(props, is_file, is_executable) {
        None => match r {
            Ok(plan) => plans(plan, props, plan.id) && !registry.contains_key(plan.id.0),
            Err(e) => e is NoFreshId,
        },
        Some(LaunchError::NotAFile(p)) => r matches Err(LaunchError::NotAFile(q)) && q@ == p@,
        Some(LaunchError::NotExecutable(p)) => r matches Err(LaunchError::NotExecutable(q)) && q@
            == p@,
        Some(LaunchError::NoFreshId) => false,
    }
}

/// Serves one spawn request with random ids: draws an id and decides with
/// `start_spawn`, drawing again while the id drawn is in use, at most
/// `MAX_DRAWS` times.
pub fn spawn_request<S>(registry: &Registry<S>, props: &Props, is_file: bool, is_executable: bool) -> (r:
    Result<LaunchPlan, LaunchError>)
    ensures
        spawn_outcome(registry@, *props, is_file, is_executable, r),
{
    let mut r = start_spawn(registry, props, is_file, is_executable, random_id());
    let mut in_use = r matches Err(LaunchError::NoFreshId);
    let mut draws: u32 = 1;
    while draws < MAX_DRAWS && in_use
        invariant
            1 <= draws <= MAX_DRAWS,
            spawn_outcome(registry@, *props, is_file, is_executable, r),
        decreases MAX_DRAWS - draws,
    {
        r = start_spawn(registry, props, is_file, is_executable, random_id());
        in_use = r matches Err(LaunchError::NoFreshId);
        draws = draws + 1;
    }
    r
}

/// The one acknowledgement of a spawn request, addressed to the sink of
/// `requester`: the new id or the reason for failure, with the request
/// itself. Nothing is sent when the requester is no longer registered.
pub fn acknowledge<'a, S>(
    registry: &'a Registry<S>,
    requester: ActorId,
    props: Props,
    outcome: Result<ActorId, String>,
) -> (r: Option<(&'a S, Message)>)
    ensures
        match r {
            Some((sink, m)) => registry@.contains_key(requester.0) && *sink
                == registry@[requester.0] && m == (Message::Spawned { id: outcome, props }),
            None => !registry@.contains_key(requester.0),
        },
{
    match registry.lookup(requester) {
        Some(sink) => Some((sink, Message::Spawned { id: outcome, props })),
        None => None,
    }
}

/// A refused request is acknowledged with a text that says why.
pub proof fn lemma_refusal_text(path: String)
    ensures
        error_text(LaunchError::NotAFile(path)).subrange(
            path@.len() as int,
            error_text(LaunchError::NotAFile(path)).len() as int,
        ) == " is not a file"@,
        error_text(LaunchError::NotExecutable(path)).subrange(
            path@.len() as int,
            error_text(LaunchError::NotExecutable(path)).len() as int,
        ) == " is not an executable file"@,
{
    assert(error_text(LaunchError::NotAFile(path)).subrange(
        path@.len() as int,
        error_text(LaunchError::NotAFile(path)).len() as int,
    ) =~= " is not a file"@);
    assert(error_text(LaunchError::NotExecutable(path)).subrange(
        path@.len() as int,
        error_text(LaunchError::NotExecutable(path)).len() as int,
    ) =~= " is not an executable file"@);
}

} // verus!
