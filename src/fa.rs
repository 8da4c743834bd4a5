use vstd::prelude::*;
use vstd::string::*;
use crate::cli::FaCli;
use crate::config::{with_default, Config, ConfigView};
use crate::error::FaError;
use crate::store::{store_file_path, Store};
use crate::text::has_suffix;

verus! {

/// The manager, holding the command line it was started with.
#[derive(Debug, Clone)]
pub struct Fa {
    pub cli: FaCli,
}

/// What every command works with: the configuration in force.
#[derive(Debug, Clone)]
pub struct FaApplicationState {
    pub configuration: Config,
}

/// How a command reaches its store, once the store's name and file are known.
#[derive(Debug, Clone)]
pub enum StoreAccess {
    /// The store exists: read and decrypt its file.
    Load { name: String, path: String },
    /// The store is to be created empty at its file.
    Create { name: String, path: String },
}

/// The store a command works on: the one it names, else the default.
pub open spec fn resolved_store_name(passed: Option<Seq<char>>, c: ConfigView) -> Seq<char> {
    match passed {
        Some(n) => n,
        None => c.default_store,
    }
}

/// The characters of an optional string.
pub open spec fn passed_view(o: Option<String>) -> Option<Seq<char>> {
    crate::credential::opt_view(o)
}

/// The name of the store kept in the file named `file`: the file name
/// without the store extension, for a file that carries it after a
/// non-empty name.
pub open spec fn store_name_of(file: Seq<char>) -> Option<Seq<char>> {
    if file.len() > 3 && file.subrange(file.len() - 3, file.len() as int) == ".fa"@ {
        Some(file.subrange(0, file.len() - 3))
    } else {
        None
    }
}

/// The names of the stores among the file names `files`, in their order.
pub open spec fn store_names(files: Seq<Seq<char>>) -> Seq<Seq<char>>
    decreases files.len(),
{
    if files.len() == 0 {
        Seq::empty()
    } else {
        let rest = store_names(files.drop_last());
        match store_name_of(files.last()) {
            Some(n) => rest.push(n),
            None => rest,
        }
    }
}

/// The characters of each of a sequence of strings.
pub open spec fn strings_view(v: Seq<String>) -> Seq<Seq<char>> {
    v.map_values(|s: String| s@)
}

/// `s` with every space turned into an underscore.
pub open spec fn spaces_to_underscores(s: Seq<char>) -> Seq<char> {
    s.map_values(|c: char| if c == ' ' { '_' } else { c })
}

impl Fa {
    /// The manager for a parsed command line.
    pub fn new(cli: FaCli) -> (r: Fa)
        ensures
            r.cli == cli,
    {
        Fa { cli }
    }

    /// The name of the store a command works on: `passed_store` where the
    /// command names one, else the configured default store.
    pub fn resolve_store_name(passed_store: &Option<String>, state: &FaApplicationState) -> (r: String)
        ensures
            r@ == resolved_store_name(passed_view(*passed_store), state.configuration@),
    {
        match passed_store {
            Some(name) => name.clone(),
            None => state.configuration._inner.store.default_store.clone(),
        }
    }

    /// The file of the store a command works on.
    pub fn resolve_store_path(passed_store: &Option<String>, state: &FaApplicationState) -> (r: String)
        ensures
            r@ == store_file_path(
                resolved_store_name(passed_view(*passed_store), state.configuration@),
                state.configuration@.base_path,
            ),
    {
        let name = Fa::resolve_store_name(passed_store, state);
        Store::get_file_path(&name, &state.configuration._inner.store.base_path)
    }

    /// How a command reaches its store: the store it names, else the
    /// default one, in the file that the store's name gives. An existing
    /// store is loaded; a missing one is created where `create_new` allows
    /// it, and is otherwise a [`FaError::NoStore`]. `store_exists` tells
    /// whether that file exists.
    pub fn get_store(
        &self,
        passed_store: &Option<String>,
        state: &FaApplicationState,
        create_new: bool,
        store_exists: bool,
    ) -> (r: Result<StoreAccess, FaError>)
        ensures
            ({
                let name = resolved_store_name(passed_view(*passed_store), state.configuration@);
                let path = store_file_path(name, state.configuration@.base_path);
                &&& store_exists ==> (r matches Ok(StoreAccess::Load { name: n, path: p }) && n@ == name && p@ == path)
                &&& !store_exists && create_new ==> (r matches Ok(StoreAccess::Create { name: n, path: p })
                    && n@ == name && p@ == path)
                &&& !store_exists && !create_new ==> (r matches Err(FaError::NoStore { path: p }) && p@ == path)
            }),
    {
        let name = Fa::resolve_store_name(passed_store, state);
        let path = Store::get_file_path(&name, &state.configuration._inner.store.base_path);
        if store_exists {
            Ok(StoreAccess::Load { name, path })
        } else if create_new {
            Ok(StoreAccess::Create { name, path })
        } else {
            Err(FaError::NoStore { path })
        }
    }

    /// The configuration after making `name` the default store, or `None`
    /// where that store does not exist, as `store_exists` tells: the
    /// configuration then stays as it is.
    pub fn set_default(state: &FaApplicationState, name: &String, store_exists: bool) -> (r: Option<Config>)
        ensures
            store_exists ==> (r matches Some(c) && c@ == with_default(state.configuration@, name@)),
            !store_exists ==> r is None,
    {
        if store_exists {
            Some(state.configuration.set_default_store(name.clone()))
        } else {
            None
        }
    }

    /// The names of the stores among the names of the regular files in the
    /// store directory: those that end in the store extension, without it.
    pub fn list_store_names(file_names: &Vec<String>) -> (r: Vec<String>)
        ensures
            strings_view(r@) == store_names(strings_view(file_names@)),
    {
        let ext = ".fa";
        proof {
            reveal_strlit(".fa");
        }
        let mut names: Vec<String> = Vec::new();
        let n = file_names.len();
        let mut i: usize = 0;
        while i < n
            invariant
                n == file_names@.len(),
                i <= n,
                ext@ == ".fa"@,
                ext@.len() == 3,
                strings_view(names@) == store_names(strings_view(file_names@).take(i as int)),
            decreases n - i,
        {
            let file = file_names[i].as_str();
            assert(strings_view(file_names@).take(i + 1).drop_last() =~= strings_view(file_names@).take(i as int));
            assert(strings_view(file_names@).take(i + 1).last() == file@);
            let len = file.unicode_len();
            if len > 3 && has_suffix(file, ext) {
                let stem = file.substring_char(0, len - 3).to_owned();
                let ghost before = names@;
                names.push(stem);
                assert(strings_view(names@) =~= strings_view(before).push(stem@));
            }
            i = i + 1;
        }
        assert(strings_view(file_names@).take(n as int) =~= strings_view(file_names@));
        names
    }

    /// A store name as typed, with each space made an underscore.
    pub fn normalize_store_name(name: &String) -> (r: String)
        ensures
            r@ == spaces_to_underscores(name@),
    {
        let s = name.as_str();
        let n = s.unicode_len();
        let mut out = String::new();
        let mut i: usize = 0;
        while i < n
            invariant
                n == s@.len(),
                s@ == name@,
                i <= n,
                out@ =~= spaces_to_underscores(s@.take(i as int)),
            decreases n - i,
        {
            let c = s.get_char(i);
            if c == ' ' {
                let underscore = "_";
                proof {
                    reveal_strlit("_");
                }
                out.append(underscore);
            } else {
                let one = s.substring_char(i, i + 1);
                assert(one@ =~= seq![c]);
                out.append(one);
            }
            assert(spaces_to_underscores(s@.take(i + 1)) =~= spaces_to_underscores(s@.take(i as int)).push(
                if c == ' ' { '_' } else { c },
            ));
            i = i + 1;
        }
        assert(s@.take(n as int) =~= s@);
        out
    }
}

/// After the default store is switched to a store that exists, a command
/// that names no store works on that store, in its file under the same
/// store directory.
pub proof fn lemma_default_switch(c: ConfigView, name: Seq<char>)
    ensures
        resolved_store_name(None, with_default(c, name)) == name,
        store_file_path(resolved_store_name(None, with_default(c, name)), with_default(c, name).base_path)
            == store_file_path(name, c.base_path),
{
}

} // verus!
