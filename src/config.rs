use vstd::prelude::*;
use vstd::string::StringExecFns;

verus! {

/// The file name of the session store, below `<base>/.config/`.
pub open spec fn store_suffix() -> Seq<char> {
    seq!['/', '.', 'c', 'o', 'n', 'f', 'i', 'g', '/', 's', 'u', 'r', 'f', 'l', 'o', 'g', '.', 'd', 'b']
}

/// The directory under which the store file lives: the data-home variable
/// when it is set, otherwise the home directory.
pub open spec fn base_dir(data_home: Option<Seq<char>>, home: Seq<char>) -> Seq<char> {
    match data_home {
        Some(d) => d,
        None => home,
    }
}

/// Path of the store file, `<base>/.config/surflog.db`.
pub fn database_path(data_home: Option<&str>, home: &str) -> (r: String)
    ensures
        r@ == base_dir(
            match data_home {
                Some(d) => Some(d@),
                None => None,
            },
            home@,
        ) + store_suffix(),
{
    let base: &str = match data_home {
        Some(d) => d,
        None => home,
    };
    let mut r = base.to_owned();
    let suffix = "/.config/surflog.db";
    proof {
        reveal_strlit("/.config/surflog.db");
    }
    r.append(suffix);
    assert(suffix@ =~= store_suffix());
    r
}

} // verus!
