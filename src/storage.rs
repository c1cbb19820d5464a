use vstd::prelude::*;
use vstd::string::{StrSliceExecFns, StringExecFns};
use crate::todo::TodoItem;

verus! {

/// Why the list could not be found, read or written.
#[derive(Debug, Clone, Copy, PartialEq, Eq, Structural)]
pub enum StorageError {
    /// A directory or file could not be created, read or written.
    IoError,
    /// The stored list is not a list of items.
    ParseError,
    /// No data directory is configured.
    ConfigError,
}

/// A relative `name` joined onto `dir` as a path joins it: with a `/` between
/// them, unless `dir` is empty or already ends with one.
pub open spec fn joined(dir: Seq<char>, name: Seq<char>) -> Seq<char> {
    if dir.len() == 0 || dir.last() == '/' {
        dir + name
    } else {
        dir + seq!['/'] + name
    }
}

/// The application's directory under a data directory.
pub open spec fn app_dir_in(data_home: Seq<char>) -> Seq<char> {
    joined(data_home, "oxitodo"@)
}

/// The directory chosen from the two variables of the environment: the data
/// directory itself where it is set, else `.local/share` under home.
pub open spec fn data_dir_spec(data_home: Option<Seq<char>>, home: Option<Seq<char>>) -> Option<Seq<char>> {
    match data_home {
        Some(d) => Some(app_dir_in(d)),
        None => match home {
            Some(h) => Some(app_dir_in(joined(joined(h, ".local"@), "share"@))),
            None => None,
        },
    }
}

/// Computes `joined`.
pub fn join_path(dir: &str, name: &str) -> (r: String)
    ensures
        r@ == joined(dir@, name@),
{
    let mut r = String::from_str(dir);
    let n = dir.unicode_len();
    if n > 0 && dir.get_char(n - 1) != '/' {
        r.append("/");
        proof {
            reveal_strlit("/");
        }
    }
    r.append(name);
    r
}

fn option_view(s: &Option<String>) -> (r: Option<&str>)
    ensures
        r is Some <==> s is Some,
        r is Some ==> r->Some_0@ == s->Some_0@,
{
    match s {
        Some(v) => Some(v.as_str()),
        None => None,
    }
}

/// The application's data directory, from the values of `XDG_DATA_HOME` and
/// `HOME` (`None` where unset); `ConfigError` when neither is set.
pub fn data_dir(data_home: Option<String>, home: Option<String>) -> (r: Result<String, StorageError>)
    ensures
        match data_dir_spec(
            match data_home { Some(d) => Some(d@), None => None },
            match home { Some(h) => Some(h@), None => None },
        ) {
            Some(p) => r is Ok && r->Ok_0@ == p,
            None => r == Err::<String, StorageError>(StorageError::ConfigError),
        },
{
    let base = match option_view(&data_home) {
        Some(d) => String::from_str(d),
        None => match option_view(&home) {
            Some(h) => {
                let local = join_path(h, ".local");
                join_path(local.as_str(), "share")
            },
            None => return Err(StorageError::ConfigError),
        },
    };
    Ok(join_path(base.as_str(), "oxitodo"))
}

/// The file that holds the list, in the application's data directory.
pub fn data_file_path(dir: &str) -> (r: String)
    ensures
        r@ == joined(dir@, "todos.json"@),
{
    join_path(dir, "todos.json")
}

/// Every id leaves room for one more after it.
pub open spec fn ids_usable(s: Seq<TodoItem>) -> bool {
    forall|i: int| 0 <= i < s.len() ==> #[trigger] s[i].id < usize::MAX
}

fn all_ids_usable(v: &Vec<TodoItem>) -> (r: bool)
    ensures
        r == ids_usable(v@),
{
    let mut i: usize = 0;
    while i < v.len()
        invariant
            i <= v@.len(),
            forall|j: int| 0 <= j < i ==> #[trigger] v@[j].id < usize::MAX,
        decreases v@.len() - i,
    {
        if v[i].id == usize::MAX {
            assert(!(v@[i as int].id < usize::MAX));
            return false;
        }
        i = i + 1;
    }
    true
}

/// What loading yields from what was found at the path (`None`: no file).
/// No file is an empty list; a file that could not be read or parsed keeps
/// its error rather than becoming an empty list; a list with an id that
/// leaves no room for a next one is refused as `ParseError`.
pub fn loaded_todos(found: Option<Result<Vec<TodoItem>, StorageError>>) -> (r: Result<Vec<TodoItem>, StorageError>)
    ensures
        r is Ok ==> ids_usable(r->Ok_0@),
        match found {
            None => r is Ok && r->Ok_0@.len() == 0,
            Some(Err(e)) => r == Err::<Vec<TodoItem>, StorageError>(e),
            Some(Ok(v)) => if ids_usable(v@) {
                r is Ok && r->Ok_0@ == v@
            } else {
                r == Err::<Vec<TodoItem>, StorageError>(StorageError::ParseError)
            },
        },
{
    match found {
        None => Ok(Vec::new()),
        Some(Err(e)) => Err(e),
        Some(Ok(v)) => {
            if all_ids_usable(&v) {
                Ok(v)
            } else {
                Err(StorageError::ParseError)
            }
        },
    }
}

} // verus!
