//! Where `networkctl` is looked for, and how it is asked to reload.
//!
//! Whether a file exists is for the caller to find out: the library names
//! the candidates in the order of the search path, and picks the first that
//! the caller reports as present.

use vstd::prelude::*;

verus! {

/// The program that makes `systemd-networkd` read its units again.
pub const NETWORKCTL: &'static str = "networkctl";

/// What `networkctl` is told to do.
pub const RELOAD: &'static str = "reload";

/// The entries of a search path: what stands between its colons. A path
/// without a colon is one entry, and an entry may be empty.
pub open spec fn path_entries(path: Seq<char>) -> Seq<Seq<char>>
    decreases path.len(),
{
    if path.len() == 0 {
        seq![Seq::empty()]
    } else {
        let before = path_entries(path.drop_last());
        if path.last() == ':' {
            before.push(Seq::empty())
        } else {
            before.drop_last().push(before.last().push(path.last()))
        }
    }
}

/// The path of `file` in the directory `dir`. An absolute `file` stands for
/// itself, and a slash is put between the two unless `dir` is empty or ends
/// in one.
pub open spec fn join_path(dir: Seq<char>, file: Seq<char>) -> Seq<char> {
    if file.len() > 0 && file[0] == '/' {
        file
    } else if dir.len() > 0 && dir.last() != '/' {
        dir + "/"@ + file
    } else {
        dir + file
    }
}

/// The places where `file` is looked for along `path`, in the path's order.
pub open spec fn spec_candidates(path: Seq<char>, file: Seq<char>) -> Seq<Seq<char>> {
    path_entries(path).map_values(|dir: Seq<char>| join_path(dir, file))
}

/// Whether `i` is the first candidate reported as present.
pub open spec fn first_present(present: Seq<bool>, count: nat, i: int) -> bool {
    &&& 0 <= i < count
    &&& i < present.len()
    &&& present[i]
    &&& forall|j: int| 0 <= j < i ==> !present[j]
}

/// Whether no candidate is reported as present.
pub open spec fn none_present(present: Seq<bool>, count: nat) -> bool {
    forall|i: int| 0 <= i < count && i < present.len() ==> !present[i]
}

/// Joins a directory and a file name to a path.
pub fn join(dir: &str, file: &str) -> (path: String)
    ensures
        path@ == join_path(dir@, file@),
{
    let dir_len: usize = dir.unicode_len();
    if file.unicode_len() > 0 && file.get_char(0) == '/' {
        String::from_str(file)
    } else if dir_len > 0 && dir.get_char(dir_len - 1) != '/' {
        let mut path: String = String::from_str(dir);
        path.append("/");
        path.append(file);
        path
    } else {
        let mut path: String = String::from_str(dir);
        path.append(file);
        path
    }
}

/// Names the places where `file` is looked for along the search path `path`.
pub fn candidates(path: &str, file: &str) -> (r: Vec<String>)
    ensures
        r.deep_view() == spec_candidates(path@, file@),
{
    let len: usize = path.unicode_len();
    let mut out: Vec<String> = Vec::new();
    let mut start: usize = 0;
    let mut i: usize = 0;
    let ghost to_path = |dir: Seq<char>| join_path(dir, file@);
    proof {
        assert(path@.take(0) =~= Seq::<char>::empty());
        assert(path@.subrange(0, 0) =~= Seq::<char>::empty());
        assert(path_entries(path@.take(0)) =~= Seq::<Seq<char>>::empty().push(
            path@.subrange(0, 0),
        ));
        assert(out.deep_view() =~= Seq::<Seq<char>>::empty().map_values(to_path));
    }
    let ghost mut done: Seq<Seq<char>> = Seq::empty();
    while i < len
        invariant
            start <= i <= len,
            len == path@.len(),
            to_path == |dir: Seq<char>| join_path(dir, file@),
            path_entries(path@.take(i as int)) == done.push(path@.subrange(start as int, i as int)),
            out.deep_view() == done.map_values(to_path),
        decreases len - i,
    {
        let c: char = path.get_char(i);
        proof {
            assert(path@.take(i + 1).drop_last() =~= path@.take(i as int));
            assert(path@.take(i + 1).last() == c);
        }
        if c == ':' {
            let entry: &str = path.substring_char(start, i);
            let ghost before = out.deep_view();
            out.push(join(entry, file));
            proof {
                assert(out.deep_view() =~= before.push(join_path(entry@, file@)));
                assert(done.push(entry@).map_values(to_path) =~= done.map_values(to_path).push(
                    to_path(entry@),
                ));
                done = done.push(entry@);
                assert(path@.subrange(i + 1, i + 1) =~= Seq::<char>::empty());
            }
            start = i + 1;
        } else {
            proof {
                let before = done.push(path@.subrange(start as int, i as int));
                assert(before.drop_last() =~= done);
                assert(before.last().push(c) =~= path@.subrange(start as int, i + 1));
            }
        }
        i = i + 1;
    }
    let entry: &str = path.substring_char(start, len);
    let ghost before = out.deep_view();
    out.push(join(entry, file));
    proof {
        assert(path@.take(len as int) =~= path@);
        assert(out.deep_view() =~= before.push(join_path(entry@, file@)));
        assert(done.push(entry@).map_values(to_path) =~= done.map_values(to_path).push(
            to_path(entry@),
        ));
    }
    out
}

/// Finds `file` along the search path `path`. `present` tells of each
/// candidate, in the order of [`candidates`], whether there is such a file;
/// the first one for which it says so is the one. Candidates that `present`
/// does not reach count as absent.
pub fn find_bin_file(path: &str, file: &str, present: &Vec<bool>) -> (r: Option<String>)
    ensures
        match r {
            Some(bin) => exists|i: int|
                first_present(present@, spec_candidates(path@, file@).len(), i) && bin@
                    == spec_candidates(path@, file@)[i],
            None => none_present(present@, spec_candidates(path@, file@).len()),
        },
{
    let places: Vec<String> = candidates(path, file);
    let mut i: usize = 0;
    while i < places.len() && i < present.len()
        invariant
            places.deep_view() == spec_candidates(path@, file@),
            forall|j: int| 0 <= j < i ==> !present@[j],
        decreases places.len() - i,
    {
        if present[i] {
            assert(first_present(present@, spec_candidates(path@, file@).len(), i as int));
            assert(places.deep_view()[i as int] == places[i as int]@);
            return Some(places[i].clone());
        }
        i = i + 1;
    }
    None
}

/// The `networkctl` binary that was found.
#[derive(Clone, Debug)]
pub struct Networkctl {
    bin: String,
}

impl View for Networkctl {
    type V = Seq<char>;

    closed spec fn view(&self) -> Seq<char> {
        self.bin@
    }
}

impl Networkctl {
    /// Where `networkctl` is looked for along the search path `path`.
    pub fn candidates(path: &str) -> (r: Vec<String>)
        ensures
            r.deep_view() == spec_candidates(path@, NETWORKCTL@),
    {
        candidates(path, NETWORKCTL)
    }

    /// Settles on the first candidate that `present` reports as there. There
    /// is no `Networkctl` where none is.
    pub fn new(path: &str, present: &Vec<bool>) -> (r: Option<Networkctl>)
        ensures
            match r {
                Some(networkctl) => exists|i: int|
                    first_present(present@, spec_candidates(path@, NETWORKCTL@).len(), i)
                        && networkctl@ == spec_candidates(path@, NETWORKCTL@)[i],
                None => none_present(present@, spec_candidates(path@, NETWORKCTL@).len()),
            },
    {
        match find_bin_file(path, NETWORKCTL, present) {
            Some(bin) => Some(Networkctl { bin }),
            None => None,
        }
    }

    /// The path of the binary.
    pub fn bin(&self) -> (path: &str)
        ensures
            path@ == self@,
    {
        self.bin.as_str()
    }

    /// The command that reloads the units: the binary, and its one argument.
    pub fn reload(&self) -> (command: Vec<String>)
        ensures
            command.deep_view() == seq![self@, RELOAD@],
    {
        let mut command: Vec<String> = Vec::new();
        command.push(self.bin.clone());
        command.push(String::from_str(RELOAD));
        assert(command.deep_view() =~= seq![self@, RELOAD@]);
        command
    }
}

} // verus!
