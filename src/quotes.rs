//! The quote store: every quote of every fortune file of a folder, read once
//! and never changed afterwards, so that any number of readers may share it.
//! Reading the folder and parsing each file is done by the caller; this
//! module decides what the store holds.
use vstd::prelude::*;

verus! {

/// The texts of `qs`.
pub open spec fn texts(qs: Seq<String>) -> Seq<Seq<char>> {
    qs.map_values(|q: String| q@)
}

/// `q` is the text of one of `qs`.
pub open spec fn is_one_of(q: Seq<char>, qs: Seq<String>) -> bool {
    exists|i: int| 0 <= i < qs.len() && q == (#[trigger] qs[i])@
}

/// The quotes of each file, in file order, one after the other.
pub open spec fn flatten_files(files: Seq<Seq<Seq<char>>>) -> Seq<Seq<char>>
    decreases files.len(),
{
    if files.len() == 0 {
        Seq::empty()
    } else {
        flatten_files(files.drop_last()) + files.last()
    }
}

/// The quotes that each file parsed into; a file that did not parse counts as empty.
pub open spec fn parsed_texts(files: Seq<Option<Vec<String>>>) -> Seq<Seq<Seq<char>>> {
    files.map_values(
        |f: Option<Vec<String>>|
            match f {
                Some(v) => texts(v@),
                None => Seq::empty(),
            },
    )
}

/// Files of `m` quotes each flatten to `m` quotes per file.
pub proof fn flatten_len(files: Seq<Seq<Seq<char>>>, m: nat)
    requires
        forall|i: int| 0 <= i < files.len() ==> (#[trigger] files[i]).len() == m,
    ensures
        flatten_files(files).len() == files.len() * m,
    decreases files.len(),
{
    if files.len() > 0 {
        let init = files.drop_last();
        assert forall|i: int| 0 <= i < init.len() implies (#[trigger] init[i]).len() == m by {
            assert(init[i] == files[i]);
        }
        flatten_len(init, m);
        assert(files[files.len() - 1].len() == m);
        let n = files.len() as int;
        assert((n - 1) * m + m == n * m) by (nonlinear_arith);
    }
}

/// Every quote of every file is among the flattened quotes.
pub proof fn flatten_keeps(files: Seq<Seq<Seq<char>>>, i: int, j: int)
    requires
        0 <= i < files.len(),
        0 <= j < files[i].len(),
    ensures
        flatten_files(files).contains(files[i][j]),
    decreases files.len(),
{
    let init = files.drop_last();
    let all = flatten_files(files);
    let head = flatten_files(init);
    if i < files.len() - 1 {
        assert(init[i] == files[i]);
        flatten_keeps(init, i, j);
        let k = choose|k: int| 0 <= k < head.len() && head[k] == init[i][j];
        assert(all[k] == files[i][j]);
    } else {
        assert(all[head.len() + j] == files[i][j]);
    }
}

/// Loading files of `m` quotes each gives `m` quotes per file, and every
/// quote of every file is among them.
pub proof fn load_counts(files: Seq<Seq<Seq<char>>>, m: nat)
    requires
        forall|i: int| 0 <= i < files.len() ==> (#[trigger] files[i]).len() == m,
    ensures
        flatten_files(files).len() == files.len() * m,
        forall|i: int, j: int|
            0 <= i < files.len() && 0 <= j < files[i].len() ==> flatten_files(files).contains(
                #[trigger] files[i][j],
            ),
{
    flatten_len(files, m);
    assert forall|i: int, j: int|
        0 <= i < files.len() && 0 <= j < files[i].len() implies flatten_files(files).contains(
            #[trigger] files[i][j],
        ) by {
        flatten_keeps(files, i, j);
    }
}

#[derive(Debug, PartialEq, Eq, Structural, Clone, Copy)]
pub enum LoadError {
    /// The folder does not exist.
    FolderNotFound,
    /// The file at this position of the listing is not a fortune file.
    FileNotParsed { index: usize },
}

/// The quotes of a folder, from whether it exists and what each of its files
/// parsed into (`None` for a file that did not parse).
pub fn load_from_parsed(folder_exists: bool, files: Vec<Option<Vec<String>>>) -> (r: Result<
    Vec<String>,
    LoadError,
>)
    ensures
        !folder_exists ==> r == Err::<Vec<String>, LoadError>(LoadError::FolderNotFound),
        folder_exists ==> (r is Ok <==> forall|i: int| 0 <= i < files@.len() ==> (#[trigger] files@[i]) is Some),
        r matches Err(LoadError::FileNotParsed { index }) ==> folder_exists && index < files@.len()
            && files@[index as int] is None && forall|j: int| 0 <= j < index ==> (#[trigger] files@[j]) is Some,
        r matches Ok(v) ==> texts(v@) == flatten_files(parsed_texts(files@)),
{
    if !folder_exists {
        return Err(LoadError::FolderNotFound);
    }
    let ghost all_files = files@;
    let n: usize = files.len();
    let mut rest = files;
    let mut all: Vec<String> = Vec::new();
    let mut i: usize = 0;
    while rest.len() > 0
        invariant
            folder_exists,
            all_files == files@,
            n == all_files.len(),
            i + rest@.len() == all_files.len(),
            rest@ == all_files.skip(i as int),
            forall|j: int| 0 <= j < i ==> (#[trigger] all_files[j]) is Some,
            texts(all@) == flatten_files(parsed_texts(all_files.take(i as int))),
        decreases rest@.len(),
    {
        let f = rest.remove(0);
        assert(f == all_files[i as int]);
        match f {
            Some(mut qs) => {
                let ghost before = all@;
                let ghost added = qs@;
                all.append(&mut qs);
                assert(parsed_texts(all_files.take(i as int + 1)).drop_last() =~= parsed_texts(
                    all_files.take(i as int),
                ));
                assert(texts(all@) =~= texts(before) + texts(added));
            },
            None => {
                return Err(LoadError::FileNotParsed { index: i });
            },
        }
        assert(rest@ =~= all_files.skip(i as int + 1));
        i = i + 1;
    }
    assert(all_files.take(i as int) =~= all_files);
    Ok(all)
}

/// Relies on `rfortune::utils::random_quote`: one of the quotes, picked at
/// random; it panics on an empty list.
#[verifier::external_body]
fn random_quote_of(quotes: &[String]) -> (r: String)
    requires
        quotes@.len() > 0,
    ensures
        is_one_of(r@, quotes@),
{
    rfortune::utils::random_quote(quotes).to_string()
}

/// One of the quotes at random, or `None` when there are none.
pub fn pick_random_quote(quotes: &[String]) -> (r: Option<String>)
    ensures
        r is None <==> quotes@.len() == 0,
        r matches Some(q) ==> is_one_of(q@, quotes@),
{
    if quotes.len() == 0 {
        None
    } else {
        Some(random_quote_of(quotes))
    }
}

/// The loaded quotes. It has no method that changes it.
pub struct QuoteStore {
    quotes: Vec<String>,
}

impl View for QuoteStore {
    type V = Seq<Seq<char>>;

    closed spec fn view(&self) -> Seq<Seq<char>> {
        texts(self.quotes@)
    }
}

impl QuoteStore {
    pub fn new(quotes: Vec<String>) -> (r: QuoteStore)
        ensures
            r@ == texts(quotes@),
    {
        QuoteStore { quotes }
    }

    /// The store of a folder, from whether it exists and what each of its
    /// files parsed into.
    pub fn load(folder_exists: bool, files: Vec<Option<Vec<String>>>) -> (r: Result<QuoteStore, LoadError>)
        ensures
            !folder_exists ==> r == Err::<QuoteStore, LoadError>(LoadError::FolderNotFound),
            folder_exists ==> (r is Ok <==> forall|i: int| 0 <= i < files@.len() ==> (#[trigger] files@[i]) is Some),
            r matches Err(LoadError::FileNotParsed { index }) ==> folder_exists && index < files@.len()
                && files@[index as int] is None && forall|j: int| 0 <= j < index ==> (#[trigger] files@[j]) is Some,
            r matches Ok(s) ==> s@ == flatten_files(parsed_texts(files@)),
    {
        match load_from_parsed(folder_exists, files) {
            Ok(v) => Ok(QuoteStore { quotes: v }),
            Err(e) => Err(e),
        }
    }

    pub fn len(&self) -> (r: usize)
        ensures
            r == self@.len(),
    {
        self.quotes.len()
    }

    pub fn quotes(&self) -> (r: &[String])
        ensures
            texts(r@) == self@,
    {
        self.quotes.as_slice()
    }

    /// One of the quotes at random, or `None` when the store is empty.
    pub fn pick_random(&self) -> (r: Option<String>)
        ensures
            r is None <==> self@.len() == 0,
            r matches Some(q) ==> self@.contains(q@),
    {
        let r = pick_random_quote(self.quotes.as_slice());
        proof {
            if r is Some {
                let q = r->Some_0;
                let i = choose|i: int| 0 <= i < self.quotes@.len() && q@ == (#[trigger] self.quotes@[i])@;
                assert(self@[i] == q@);
            }
        }
        r
    }
}

} // verus!
