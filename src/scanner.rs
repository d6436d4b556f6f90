use vstd::prelude::*;

verus! {

/// One entry of a directory listing, with the listing of its own contents
/// when it is a directory that was read.
#[derive(Debug)]
pub struct DirEntry {
    pub name: String,
    pub is_dir: bool,
    pub children: Vec<DirEntry>,
}

/// A directory that could not be read.
#[derive(Debug)]
pub struct ScannerError {
    pub cause: String,
}

impl ScannerError {
    pub fn message(&self) -> (r: String)
        ensures
            r@ == "Error scanning for folders: "@ + self.cause@,
    {
        String::from_str("Error scanning for folders: ").concat(self.cause.as_str())
    }
}

/// The path of `name` inside the directory at `parent`.
pub open spec fn child_path(parent: Seq<char>, name: Seq<char>) -> Seq<char> {
    parent + "/"@ + name
}

/// The directories found `depth` levels below the directory at `path`, whose
/// listing is `entries`, in listing order.
pub open spec fn scan_entries(path: Seq<char>, entries: Seq<DirEntry>, depth: nat) -> Seq<
    Seq<char>,
>
    decreases depth, 1nat, entries.len(),
{
    if entries.len() == 0 {
        Seq::empty()
    } else {
        scan_entries(path, entries.drop_last(), depth) + scan_entry(path, entries.last(), depth)
    }
}

/// What one entry of the listing of `path` contributes to a scan.
pub open spec fn scan_entry(path: Seq<char>, entry: DirEntry, depth: nat) -> Seq<Seq<char>>
    decreases depth, 0nat, 0nat,
{
    if !entry.is_dir {
        Seq::empty()
    } else if depth == 0 {
        seq![child_path(path, entry.name@)]
    } else {
        scan_entries(child_path(path, entry.name@), entry.children@, (depth - 1) as nat)
    }
}

pub open spec fn views(v: Seq<String>) -> Seq<Seq<char>> {
    v.map_values(|s: String| s@)
}

/// Lists the directories at a given depth below a root.
pub trait Scanner {
    fn scan(&self, root: &str, entries: &Vec<DirEntry>, depth: u8) -> (r: Vec<String>)
        ensures
            views(r@) == scan_entries(root@, entries@, depth as nat),
    ;
}

/// Descends `depth` levels, then takes the directories found there verbatim.
pub struct RecursiveScanner;

pub fn join_path(parent: &str, name: &str) -> (r: String)
    ensures
        r@ == child_path(parent@, name@),
{
    String::from_str(parent).concat("/").concat(name)
}

proof fn lemma_views_concat(a: Seq<String>, b: Seq<String>)
    ensures
        views(a + b) == views(a) + views(b),
{
    assert(views(a + b) =~= views(a) + views(b));
}

impl Scanner for RecursiveScanner {
    fn scan(&self, root: &str, entries: &Vec<DirEntry>, depth: u8) -> (r: Vec<String>)
        decreases depth,
    {
        let mut found: Vec<String> = Vec::new();
        let mut i: usize = 0;
        while i < entries.len()
            invariant
                i <= entries@.len(),
                views(found@) == scan_entries(root@, entries@.take(i as int), depth as nat),
            decreases entries@.len() - i,
        {
            assert(entries@.take(i + 1).drop_last() == entries@.take(i as int));
            let entry = &entries[i];
            let ghost before = found@;
            if entry.is_dir {
                let path = join_path(root, entry.name.as_str());
                if depth == 0 {
                    found.push(path);
                    proof {
                        lemma_views_concat(before, seq![path]);
                        assert(found@ == before + seq![path]);
                        assert(views(seq![path]) =~= seq![path@]);
                    }
                } else {
                    let mut below = self.scan(path.as_str(), &entry.children, depth - 1);
                    let ghost added = below@;
                    found.append(&mut below);
                    proof {
                        lemma_views_concat(before, added);
                    }
                }
            } else {
                assert(found@ == before + Seq::<String>::empty());
            }
            assert(entries@.take(i + 1).last() == entries@[i as int]);
            assert(scan_entries(root@, entries@.take(i + 1), depth as nat) == scan_entries(
                root@,
                entries@.take(i as int),
                depth as nat,
            ) + scan_entry(root@, entries@[i as int], depth as nat));
            i = i + 1;
        }
        assert(entries@.take(i as int) == entries@);
        found
    }
}

/// A listing that holds no directory gives an empty scan.
pub proof fn scan_without_directories_is_empty(path: Seq<char>, entries: Seq<DirEntry>, depth: nat)
    requires
        forall|i: int| 0 <= i < entries.len() ==> !(#[trigger] entries[i]).is_dir,
    ensures
        scan_entries(path, entries, depth) == Seq::<Seq<char>>::empty(),
    decreases entries.len(),
{
    if entries.len() > 0 {
        let rest = entries.drop_last();
        assert forall|i: int| 0 <= i < rest.len() implies !(#[trigger] rest[i]).is_dir by {
            assert(rest[i] == entries[i]);
        }
        scan_without_directories_is_empty(path, rest, depth);
        assert(!entries.last().is_dir);
        assert(scan_entry(path, entries.last(), depth) =~= Seq::<Seq<char>>::empty());
        assert(scan_entries(path, entries, depth) =~= Seq::<Seq<char>>::empty());
    }
}

} // verus!
