//! The process environment handed to the backend. It is the whole contract
//! between the supervisor and the backend.

use crate::layout::{DataLayout, DataLayoutView};
use crate::text::{decimal, render_decimal};
use vstd::prelude::*;
use vstd::string::*;

verus! {

/// One variable of the backend's environment.
#[derive(Clone, Debug, PartialEq, Eq)]
pub struct EnvVar {
    pub name: String,
    pub value: String,
}

impl View for EnvVar {
    type V = (Seq<char>, Seq<char>);

    open spec fn view(&self) -> (Seq<char>, Seq<char>) {
        (self.name@, self.value@)
    }
}

impl DeepView for EnvVar {
    type V = (Seq<char>, Seq<char>);

    open spec fn deep_view(&self) -> (Seq<char>, Seq<char>) {
        (self.name@, self.value@)
    }
}

/// Name of the variable that carries the listening port.
pub open spec fn port_var() -> Seq<char> {
    "PORT"@
}

/// Name of the variable that marks a backend run by the desktop shell.
pub open spec fn packaged_var() -> Seq<char> {
    "C3I_BACKUP_ONE_TAURI"@
}

/// Name of the variable that carries the bundled resources path.
pub open spec fn resources_var() -> Seq<char> {
    "C3I_BACKUP_ONE_RESOURCES_PATH"@
}

/// Name of the variable that carries the database migrations path.
pub open spec fn migrations_var() -> Seq<char> {
    "MIGRATIONS_PATH"@
}

/// Name of the variable that carries the database location.
pub open spec fn database_var() -> Seq<char> {
    "DATABASE_URL"@
}

/// Name of the variable that carries the repositories directory.
pub open spec fn repositories_var() -> Seq<char> {
    "C3I_BACKUP_ONE_REPOSITORIES_DIR"@
}

/// Name of the variable that carries the volumes directory.
pub open spec fn volumes_var() -> Seq<char> {
    "C3I_BACKUP_ONE_VOLUMES_DIR"@
}

/// Name of the variable that carries the cache directory.
pub open spec fn cache_var() -> Seq<char> {
    "RESTIC_CACHE_DIR"@
}

/// Name of the variable that carries the credentials file.
pub open spec fn credentials_var() -> Seq<char> {
    "RESTIC_PASS_FILE"@
}

/// Name of the variable that selects the runtime mode.
pub open spec fn mode_var() -> Seq<char> {
    "NODE_ENV"@
}

/// The names of the environment, in the order in which they are set.
pub open spec fn variable_names() -> Seq<Seq<char>> {
    seq![
        port_var(),
        packaged_var(),
        resources_var(),
        migrations_var(),
        database_var(),
        repositories_var(),
        volumes_var(),
        cache_var(),
        credentials_var(),
        mode_var(),
    ]
}

/// The complete environment of a backend that listens on `port` and keeps
/// its state in `layout`. The packaged marker is `1` and the runtime mode is
/// `production` in every launch mode.
pub open spec fn environment_of(
    port: u16,
    resources_path: Seq<char>,
    migrations_path: Seq<char>,
    layout: DataLayoutView,
) -> Seq<(Seq<char>, Seq<char>)> {
    seq![
        (port_var(), decimal(port as nat)),
        (packaged_var(), "1"@),
        (resources_var(), resources_path),
        (migrations_var(), migrations_path),
        (database_var(), layout.database_file),
        (repositories_var(), layout.repositories_dir),
        (volumes_var(), layout.volumes_dir),
        (cache_var(), layout.cache_dir),
        (credentials_var(), layout.credentials_file),
        (mode_var(), "production"@),
    ]
}

/// The value that an environment gives to `name`: that of the first entry
/// with this name.
pub open spec fn value_of(env: Seq<(Seq<char>, Seq<char>)>, name: Seq<char>) -> Option<Seq<char>>
    decreases env.len(),
{
    if env.len() == 0 {
        None
    } else if env[0].0 == name {
        Some(env[0].1)
    } else {
        value_of(env.drop_first(), name)
    }
}

fn variable(name: &str, value: String) -> (r: EnvVar)
    ensures
        r@ == (name@, value@),
{
    EnvVar { name: String::from_str(name), value }
}

/// Builds the backend's environment. It is pure data: nothing is read from
/// or written to the calling process.
pub fn build_environment(
    port: u16,
    resources_path: &str,
    migrations_path: &str,
    layout: &DataLayout,
) -> (r: Vec<EnvVar>)
    ensures
        r.deep_view() == environment_of(port, resources_path@, migrations_path@, layout@),
{
    let mut env: Vec<EnvVar> = Vec::new();
    env.push(variable("PORT", render_decimal(port as u64)));
    env.push(variable("C3I_BACKUP_ONE_TAURI", String::from_str("1")));
    env.push(variable("C3I_BACKUP_ONE_RESOURCES_PATH", String::from_str(resources_path)));
    env.push(variable("MIGRATIONS_PATH", String::from_str(migrations_path)));
    env.push(variable("DATABASE_URL", layout.database_file.clone()));
    env.push(variable("C3I_BACKUP_ONE_REPOSITORIES_DIR", layout.repositories_dir.clone()));
    env.push(variable("C3I_BACKUP_ONE_VOLUMES_DIR", layout.volumes_dir.clone()));
    env.push(variable("RESTIC_CACHE_DIR", layout.cache_dir.clone()));
    env.push(variable("RESTIC_PASS_FILE", layout.credentials_file.clone()));
    env.push(variable("NODE_ENV", String::from_str("production")));
    assert(env.deep_view() =~= environment_of(
        port,
        resources_path@,
        migrations_path@,
        layout@,
    ));
    env
}

/// Looks a variable up by name.
pub fn lookup<'a>(env: &'a Vec<EnvVar>, name: &str) -> (r: Option<&'a String>)
    ensures
        match r {
            Some(value) => value_of(env.deep_view(), name@) == Some(value@),
            None => value_of(env.deep_view(), name@) is None,
        },
{
    let wanted = String::from_str(name);
    let mut i: usize = 0;
    assert(env.deep_view().subrange(0, env.len() as int) =~= env.deep_view());
    while i < env.len()
        invariant
            i <= env.len(),
            wanted@ == name@,
            value_of(env.deep_view(), name@) == value_of(
                env.deep_view().subrange(i as int, env.len() as int),
                name@,
            ),
        decreases env.len() - i,
    {
        let ghost rest = env.deep_view().subrange(i as int, env.len() as int);
        assert(rest[0] == env[i as int]@);
        assert(rest.drop_first() =~= env.deep_view().subrange(i + 1, env.len() as int));
        if env[i].name == wanted {
            return Some(&env[i].value);
        }
        i += 1;
    }
    assert(env.deep_view().subrange(i as int, env.len() as int).len() == 0);
    None
}

/// The environment is a mapping: no name is set twice.
pub proof fn lemma_variable_names_distinct()
    ensures
        variable_names().no_duplicates(),
{
    reveal_strlit("PORT");
    reveal_strlit("C3I_BACKUP_ONE_TAURI");
    reveal_strlit("C3I_BACKUP_ONE_RESOURCES_PATH");
    reveal_strlit("MIGRATIONS_PATH");
    reveal_strlit("DATABASE_URL");
    reveal_strlit("C3I_BACKUP_ONE_REPOSITORIES_DIR");
    reveal_strlit("C3I_BACKUP_ONE_VOLUMES_DIR");
    reveal_strlit("RESTIC_CACHE_DIR");
    reveal_strlit("RESTIC_PASS_FILE");
    reveal_strlit("NODE_ENV");
    let names = variable_names();
    assert(names[7][7] == 'C');
    assert(names[8][7] == 'P');
    assert forall|i: int, j: int| 0 <= i < names.len() && 0 <= j < names.len() && i != j implies names[i]
        != names[j] by {
        if (i == 7 && j == 8) || (i == 8 && j == 7) {
            assert(names[i][7] != names[j][7]);
        } else {
            assert(names[i].len() != names[j].len());
        }
    }
}

/// In an environment that sets no name twice, every entry is found under
/// its name.
pub proof fn lemma_value_of_entry(env: Seq<(Seq<char>, Seq<char>)>, at: int)
    requires
        0 <= at < env.len(),
        env.map_values(|entry: (Seq<char>, Seq<char>)| entry.0).no_duplicates(),
    ensures
        value_of(env, env[at].0) == Some(env[at].1),
    decreases at,
{
    let names = env.map_values(|entry: (Seq<char>, Seq<char>)| entry.0);
    if at > 0 {
        let rest = env.drop_first();
        let rest_names = rest.map_values(|entry: (Seq<char>, Seq<char>)| entry.0);
        assert(names[0] == env[0].0);
        assert(names[at] == env[at].0);
        assert(env[0].0 != env[at].0);
        assert forall|i: int, j: int|
            0 <= i < rest_names.len() && 0 <= j < rest_names.len() && i != j implies rest_names[i]
            != rest_names[j] by {
            assert(rest_names[i] == names[i + 1]);
            assert(rest_names[j] == names[j + 1]);
        }
        assert(rest[at - 1] == env[at]);
        lemma_value_of_entry(rest, at - 1);
    }
}

/// What the backend finds under each name: the port in decimal, the
/// packaged marker `1`, the two resource paths, the five places of the data
/// layout, and the mode `production`.
pub proof fn lemma_environment_values(
    port: u16,
    resources_path: Seq<char>,
    migrations_path: Seq<char>,
    layout: DataLayoutView,
)
    ensures
        ({
            let env = environment_of(port, resources_path, migrations_path, layout);
            &&& value_of(env, port_var()) == Some(decimal(port as nat))
            &&& value_of(env, packaged_var()) == Some("1"@)
            &&& value_of(env, resources_var()) == Some(resources_path)
            &&& value_of(env, migrations_var()) == Some(migrations_path)
            &&& value_of(env, database_var()) == Some(layout.database_file)
            &&& value_of(env, repositories_var()) == Some(layout.repositories_dir)
            &&& value_of(env, volumes_var()) == Some(layout.volumes_dir)
            &&& value_of(env, cache_var()) == Some(layout.cache_dir)
            &&& value_of(env, credentials_var()) == Some(layout.credentials_file)
            &&& value_of(env, mode_var()) == Some("production"@)
        }),
{
    let env = environment_of(port, resources_path, migrations_path, layout);
    lemma_environment_names(port, resources_path, migrations_path, layout);
    lemma_variable_names_distinct();
    lemma_value_of_entry(env, 0);
    lemma_value_of_entry(env, 1);
    lemma_value_of_entry(env, 2);
    lemma_value_of_entry(env, 3);
    lemma_value_of_entry(env, 4);
    lemma_value_of_entry(env, 5);
    lemma_value_of_entry(env, 6);
    lemma_value_of_entry(env, 7);
    lemma_value_of_entry(env, 8);
    lemma_value_of_entry(env, 9);
}

/// Every launch names exactly the ten variables of [`variable_names`], in
/// that order.
pub proof fn lemma_environment_names(
    port: u16,
    resources_path: Seq<char>,
    migrations_path: Seq<char>,
    layout: DataLayoutView,
)
    ensures
        environment_of(port, resources_path, migrations_path, layout).map_values(
            |entry: (Seq<char>, Seq<char>)| entry.0,
        ) == variable_names(),
{
    assert(environment_of(port, resources_path, migrations_path, layout).map_values(
        |entry: (Seq<char>, Seq<char>)| entry.0,
    ) =~= variable_names());
}

} // verus!
