//! The host environment as a snapshot, and what of it is forwarded.

use crate::error::{ErrorModel, ToolboxError};
use crate::text::texts;
use vstd::prelude::*;
use vstd::string::*;

verus! {

/// One variable of the host environment. A value that is not text is `None`.
#[derive(Debug, Clone, PartialEq, Eq)]
pub struct EnvVar {
    pub name: String,
    pub value: Option<String>,
}

/// Mathematical value of an [`EnvVar`].
pub struct EnvVarModel {
    pub name: Seq<char>,
    pub value: Option<Seq<char>>,
}

impl View for EnvVar {
    type V = EnvVarModel;

    open spec fn view(&self) -> EnvVarModel {
        EnvVarModel {
            name: self.name@,
            value: match self.value {
                Some(v) => Some(v@),
                None => None,
            },
        }
    }
}

/// The environment that a vector of variables stands for.
pub open spec fn models(env: Seq<EnvVar>) -> Seq<EnvVarModel> {
    env.map_values(|e: EnvVar| e@)
}

/// What a name is found to hold in an environment.
#[derive(Debug, Clone, PartialEq, Eq)]
pub enum EnvValue {
    Unset,
    NotText,
    Text(String),
}

/// Mathematical value of an [`EnvValue`].
pub enum Lookup {
    Unset,
    NotText,
    Text(Seq<char>),
}

impl View for EnvValue {
    type V = Lookup;

    open spec fn view(&self) -> Lookup {
        match self {
            EnvValue::Unset => Lookup::Unset,
            EnvValue::NotText => Lookup::NotText,
            EnvValue::Text(v) => Lookup::Text(v@),
        }
    }
}

/// What the first variable named `name` at or after position `i` holds.
pub open spec fn lookup_from(env: Seq<EnvVarModel>, name: Seq<char>, i: int) -> Lookup
    decreases env.len() - i,
{
    if i < 0 || i >= env.len() {
        Lookup::Unset
    } else if env[i].name == name {
        match env[i].value {
            Some(v) => Lookup::Text(v),
            None => Lookup::NotText,
        }
    } else {
        lookup_from(env, name, i + 1)
    }
}

/// What `name` holds in the environment: the first variable of that name decides.
pub open spec fn lookup(env: Seq<EnvVarModel>, name: Seq<char>) -> Lookup {
    lookup_from(env, name, 0)
}

/// Looks a name up in an environment snapshot.
pub fn lookup_env(env: &Vec<EnvVar>, name: &String) -> (r: EnvValue)
    ensures
        r@ == lookup(models(env@), name@),
{
    let mut i: usize = 0;
    while i < env.len()
        invariant
            i <= env.len(),
            lookup(models(env@), name@) == lookup_from(models(env@), name@, i as int),
        decreases env.len() - i,
    {
        if env[i].name == *name {
            return match &env[i].value {
                Some(v) => EnvValue::Text(v.clone()),
                None => EnvValue::NotText,
            };
        }
        i = i + 1;
    }
    EnvValue::Unset
}

/// What a required variable yields: its text, or the error owed for its absence.
pub open spec fn required(env: Seq<EnvVarModel>, name: Seq<char>) -> Result<Seq<char>, ErrorModel> {
    match lookup(env, name) {
        Lookup::Text(v) => Ok(v),
        Lookup::Unset => Err(ErrorModel::MissingEnvVar(name)),
        Lookup::NotText => Err(ErrorModel::InvalidEncoding(name)),
    }
}

/// Whether an executable result stands for the given mathematical one.
pub open spec fn text_result(r: Result<String, ToolboxError>, m: Result<Seq<char>, ErrorModel>) -> bool {
    match r {
        Ok(v) => m == Ok::<Seq<char>, ErrorModel>(v@),
        Err(e) => m == Err::<Seq<char>, ErrorModel>(e@),
    }
}

/// The text of a variable that must be set.
pub fn getenv_required_utf8(env: &Vec<EnvVar>, name: &String) -> (r: Result<String, ToolboxError>)
    ensures
        text_result(r, required(models(env@), name@)),
{
    match lookup_env(env, name) {
        EnvValue::Text(v) => Ok(v),
        EnvValue::Unset => Err(ToolboxError::MissingEnvVar(name.clone())),
        EnvValue::NotText => Err(ToolboxError::InvalidEncoding(name.clone())),
    }
}

/// The names whose values are forwarded into the container, in order.
pub open spec fn preserved_names() -> Seq<Seq<char>> {
    seq![
        "COLORTERM"@,
        "DBUS_SESSION_BUS_ADDRESS"@,
        "DESKTOP_SESSION"@,
        "DISPLAY"@,
        "LANG"@,
        "SHELL"@,
        "SSH_AUTH_SOCK"@,
        "TERM"@,
        "VTE_VERSION"@,
        "XDG_CURRENT_DESKTOP"@,
        "XDG_DATA_DIRS"@,
        "XDG_MENU_PREFIX"@,
        "XDG_RUNTIME_DIR"@,
        "XDG_SEAT"@,
        "XDG_SESSION_DESKTOP"@,
        "XDG_SESSION_ID"@,
        "XDG_SESSION_TYPE"@,
        "XDG_VTNR"@,
    ]
}

/// The names whose values are forwarded into the container, in order.
pub fn preserved_env() -> (names: Vec<String>)
    ensures
        texts(names@) == preserved_names(),
{
    let mut names: Vec<String> = Vec::new();
    names.push(String::from_str("COLORTERM"));
    names.push(String::from_str("DBUS_SESSION_BUS_ADDRESS"));
    names.push(String::from_str("DESKTOP_SESSION"));
    names.push(String::from_str("DISPLAY"));
    names.push(String::from_str("LANG"));
    names.push(String::from_str("SHELL"));
    names.push(String::from_str("SSH_AUTH_SOCK"));
    names.push(String::from_str("TERM"));
    names.push(String::from_str("VTE_VERSION"));
    names.push(String::from_str("XDG_CURRENT_DESKTOP"));
    names.push(String::from_str("XDG_DATA_DIRS"));
    names.push(String::from_str("XDG_MENU_PREFIX"));
    names.push(String::from_str("XDG_RUNTIME_DIR"));
    names.push(String::from_str("XDG_SEAT"));
    names.push(String::from_str("XDG_SESSION_DESKTOP"));
    names.push(String::from_str("XDG_SESSION_ID"));
    names.push(String::from_str("XDG_SESSION_TYPE"));
    names.push(String::from_str("XDG_VTNR"));
    assert(texts(names@) =~= preserved_names());
    names
}

/// The variables forwarded out of the first `k` names of `names`: those that
/// hold text, each with its value, in the order of the names.
pub open spec fn forwarded_among(env: Seq<EnvVarModel>, names: Seq<Seq<char>>, k: int) -> Seq<
    (Seq<char>, Seq<char>),
>
    decreases k,
{
    if k <= 0 || k > names.len() {
        Seq::empty()
    } else {
        let before = forwarded_among(env, names, k - 1);
        match lookup(env, names[k - 1]) {
            Lookup::Text(v) => before.push((names[k - 1], v)),
            _ => before,
        }
    }
}

/// The first of the first `k` names of `names` that holds a value which is not text.
pub open spec fn untextual_among(env: Seq<EnvVarModel>, names: Seq<Seq<char>>, k: int) -> Option<
    Seq<char>,
>
    decreases k,
{
    if k <= 0 || k > names.len() {
        None
    } else {
        match untextual_among(env, names, k - 1) {
            Some(n) => Some(n),
            None => if lookup(env, names[k - 1]) == Lookup::NotText {
                Some(names[k - 1])
            } else {
                None
            },
        }
    }
}

/// The variables that are forwarded into the container, name and value, in
/// the order of the preserved names.
pub open spec fn forwarded(env: Seq<EnvVarModel>) -> Seq<(Seq<char>, Seq<char>)> {
    forwarded_among(env, preserved_names(), preserved_names().len() as int)
}

/// The first preserved name whose value is not text, if there is one.
pub open spec fn unforwardable(env: Seq<EnvVarModel>) -> Option<Seq<char>> {
    untextual_among(env, preserved_names(), preserved_names().len() as int)
}

/// The runtime's argument that sets `name` to `value` in the container.
pub open spec fn env_arg(name: Seq<char>, value: Seq<char>) -> Seq<char> {
    "--env="@ + name + "="@ + value
}

/// The runtime's arguments for a sequence of variables.
pub open spec fn env_args(vars: Seq<(Seq<char>, Seq<char>)>) -> Seq<Seq<char>> {
    vars.map_values(|p: (Seq<char>, Seq<char>)| env_arg(p.0, p.1))
}

/// Renders the runtime's argument that sets `name` to `value`.
pub fn env_arg_string(name: &String, value: &String) -> (a: String)
    ensures
        a@ == env_arg(name@, value@),
{
    let mut a = String::from_str("--env=");
    a.append(name.as_str());
    a.append("=");
    a.append(value.as_str());
    a
}

/// The `--env=` arguments that forward the preserved variables which are set.
/// A preserved variable whose value is not text is an error: the first such
/// name, in the order of the preserved names, is reported.
pub fn forwarded_env_args(env: &Vec<EnvVar>) -> (r: Result<Vec<String>, ToolboxError>)
    ensures
        match unforwardable(models(env@)) {
            Some(n) => r is Err && r->Err_0@ == ErrorModel::InvalidEncoding(n),
            None => r is Ok && texts(r->Ok_0@) == env_args(forwarded(models(env@))),
        },
{
    let names = preserved_env();
    let ghost e = models(env@);
    let ghost ns = preserved_names();
    let mut args: Vec<String> = Vec::new();
    let mut k: usize = 0;
    while k < names.len()
        invariant
            k <= names.len(),
            texts(names@) == ns,
            ns == preserved_names(),
            e == models(env@),
            untextual_among(e, ns, k as int) is None,
            texts(args@) == env_args(forwarded_among(e, ns, k as int)),
        decreases names.len() - k,
    {
        assert(ns.len() == names@.len());
        assert(ns[k as int] == names@[k as int]@);
        let ghost before = forwarded_among(e, ns, k as int);
        match lookup_env(env, &names[k]) {
            EnvValue::Text(v) => {
                let ghost old_args = args@;
                args.push(env_arg_string(&names[k], &v));
                assert(forwarded_among(e, ns, k + 1) == before.push((ns[k as int], v@)));
                assert(texts(args@) =~= texts(old_args).push(env_arg(ns[k as int], v@)));
                assert(texts(args@) =~= env_args(forwarded_among(e, ns, k + 1)));
            },
            EnvValue::NotText => {
                proof {
                    assert(untextual_among(e, ns, k + 1) == Some(ns[k as int]));
                    lemma_untextual_stays(e, ns, k + 1, ns.len() as int);
                }
                return Err(ToolboxError::InvalidEncoding(names[k].clone()));
            },
            EnvValue::Unset => {},
        }
        k = k + 1;
    }
    Ok(args)
}

/// Once a name without text is found among the first `k` names, it is the
/// one found among any longer prefix.
proof fn lemma_untextual_stays(env: Seq<EnvVarModel>, names: Seq<Seq<char>>, k: int, m: int)
    requires
        0 <= k <= m <= names.len(),
        untextual_among(env, names, k) is Some,
    ensures
        untextual_among(env, names, m) == untextual_among(env, names, k),
    decreases m - k,
{
    if k < m {
        lemma_untextual_stays(env, names, k, m - 1);
    }
}

/// A pair of name and value is among the first `k` forwarded ones exactly when
/// the name is one of the first `k` names and holds that value as text.
proof fn lemma_forwarded_among(
    env: Seq<EnvVarModel>,
    names: Seq<Seq<char>>,
    k: int,
    name: Seq<char>,
    value: Seq<char>,
)
    requires
        0 <= k <= names.len(),
    ensures
        forwarded_among(env, names, k).contains((name, value)) <==> (names.take(k).contains(name)
            && lookup(env, name) == Lookup::Text(value)),
    decreases k,
{
    if k > 0 {
        lemma_forwarded_among(env, names, k - 1, name, value);
        let before = forwarded_among(env, names, k - 1);
        let last = names[k - 1];
        assert(names.take(k) =~= names.take(k - 1).push(last));
        assert(names.take(k).contains(name) <==> (names.take(k - 1).contains(name) || name
            == last)) by {
            if names.take(k - 1).contains(name) {
                let shorter = names.take(k - 1);
                let j = choose|j: int| 0 <= j < shorter.len() && shorter[j] == name;
                assert(names.take(k)[j] == name);
            }
            if name == last {
                assert(names.take(k)[k - 1] == name);
            }
        }
        match lookup(env, last) {
            Lookup::Text(v) => {
                let after = before.push((last, v));
                assert(after.contains((name, value)) <==> (before.contains((name, value)) || (
                name, value) == (last, v))) by {
                    if before.contains((name, value)) {
                        let j = choose|j: int| 0 <= j < before.len() && before[j] == (name, value);
                        assert(after[j] == (name, value));
                    }
                    if (name, value) == (last, v) {
                        assert(after[before.len() as int] == (name, value));
                    }
                }
            },
            _ => {},
        }
    } else {
        assert(names.take(0).len() == 0);
    }
}

/// A variable is forwarded if and only if its name is preserved and the host
/// environment holds text for it; it is forwarded with that text.
pub proof fn forwarding_is_exact(env: Seq<EnvVarModel>, name: Seq<char>, value: Seq<char>)
    ensures
        forwarded(env).contains((name, value)) <==> (preserved_names().contains(name) && lookup(
            env,
            name,
        ) == Lookup::Text(value)),
{
    let names = preserved_names();
    lemma_forwarded_among(env, names, names.len() as int, name, value);
    assert(names.take(names.len() as int) =~= names);
}

} // verus!
