//! A batch of downloads: which games still need their artwork, how many run
//! at once, and what is reported at the end.

use vstd::prelude::*;
use crate::error::{error_text, SteamError};
use crate::game_list::strings_view;
use crate::text::{decimal, int_to_decimal};

verus! {

/// The name of the file that holds a game's artwork.
pub open spec fn output_file_name_spec(game_id: Seq<char>) -> Seq<char> {
    game_id + ".png"@
}

/// The path of the file that holds a game's artwork within `dir`.
pub open spec fn output_path_spec(dir: Seq<char>, game_id: Seq<char>) -> Seq<char> {
    dir + "/"@ + output_file_name_spec(game_id)
}

/// Whether the artwork of a game is among the files already present.
pub open spec fn is_saved_spec(existing: Seq<Seq<char>>, game_id: Seq<char>) -> bool {
    existing.contains(output_file_name_spec(game_id))
}

/// The ids whose artwork is not yet present, in their order.
pub open spec fn pending_spec(ids: Seq<Seq<char>>, existing: Seq<Seq<char>>) -> Seq<Seq<char>>
    decreases ids.len(),
{
    if ids.len() == 0 {
        Seq::empty()
    } else {
        let rest = pending_spec(ids.drop_last(), existing);
        if is_saved_spec(existing, ids.last()) {
            rest
        } else {
            rest.push(ids.last())
        }
    }
}

/// The name of the file that holds a game's artwork. The name does not
/// record whether the artwork was padded: a rerun with the other choice
/// keeps the files already present as they are.
pub fn output_file_name(game_id: &str) -> (r: String)
    ensures
        r@ == output_file_name_spec(game_id@),
{
    proof {
        reveal_strlit(".png");
    }
    let mut r = String::from_str(game_id);
    r.append(".png");
    r
}

/// The path of the file that holds a game's artwork within `dir`.
pub fn output_path(dir: &str, game_id: &str) -> (r: String)
    ensures
        r@ == output_path_spec(dir@, game_id@),
{
    proof {
        reveal_strlit("/");
    }
    let mut r = String::from_str(dir);
    r.append("/");
    let name = output_file_name(game_id);
    r.append(name.as_str());
    r
}

/// Whether the artwork of a game is among the files already present.
pub fn is_saved(existing: &Vec<String>, game_id: &str) -> (r: bool)
    ensures
        r == is_saved_spec(strings_view(existing@), game_id@),
{
    let name = output_file_name(game_id);
    let mut j: usize = 0;
    while j < existing.len()
        invariant
            j <= existing.len(),
            name@ == output_file_name_spec(game_id@),
            forall|k: int| 0 <= k < j ==> (#[trigger] existing@[k])@ != name@,
        decreases existing.len() - j,
    {
        if existing[j] == name {
            assert(strings_view(existing@)[j as int] == name@);
            return true;
        }
        j = j + 1;
    }
    assert(!strings_view(existing@).contains(name@)) by {
        if strings_view(existing@).contains(name@) {
            let k = choose|k: int| 0 <= k < existing@.len() && strings_view(existing@)[k] == name@;
            assert(existing@[k]@ == name@);
        }
    }
    false
}

/// The ids whose artwork is not yet among the files present: the work of a
/// batch, in the order of `ids`.
pub fn pending_ids(ids: &Vec<String>, existing: &Vec<String>) -> (r: Vec<String>)
    ensures
        strings_view(r@) == pending_spec(strings_view(ids@), strings_view(existing@)),
{
    let mut out: Vec<String> = Vec::new();
    let mut i: usize = 0;
    while i < ids.len()
        invariant
            i <= ids.len(),
            strings_view(out@) == pending_spec(strings_view(ids@).take(i as int), strings_view(existing@)),
        decreases ids.len() - i,
    {
        let ghost before = out@;
        let saved = is_saved(existing, ids[i].as_str());
        if !saved {
            out.push(ids[i].clone());
        }
        proof {
            let prefix = strings_view(ids@).take(i + 1);
            assert(prefix.drop_last() == strings_view(ids@).take(i as int));
            assert(prefix.last() == ids@[i as int]@);
            if !saved {
                assert(strings_view(out@) =~= strings_view(before).push(ids@[i as int]@));
            } else {
                assert(out@ == before);
            }
        }
        i = i + 1;
    }
    assert(strings_view(ids@).take(ids.len() as int) == strings_view(ids@));
    out
}

/// When the destination already holds the artwork of every id, a batch has
/// nothing left to download.
pub proof fn lemma_nothing_pending_when_all_saved(ids: Seq<Seq<char>>, existing: Seq<Seq<char>>)
    requires
        forall|i: int| 0 <= i < ids.len() ==> existing.contains(#[trigger] output_file_name_spec(ids[i])),
    ensures
        pending_spec(ids, existing) == Seq::<Seq<char>>::empty(),
    decreases ids.len(),
{
    if ids.len() > 0 {
        let rest = ids.drop_last();
        assert forall|i: int| 0 <= i < rest.len() implies existing.contains(
            #[trigger] output_file_name_spec(rest[i]),
        ) by {
            assert(rest[i] == ids[i]);
        }
        lemma_nothing_pending_when_all_saved(rest, existing);
        assert(existing.contains(output_file_name_spec(ids[ids.len() - 1])));
    }
}

/// A game whose artwork could not be stored, with its store name where one
/// could be found, and the reason.
pub struct Failure {
    pub game_id: String,
    pub game_name: Option<String>,
    pub error: SteamError,
}

/// The outcome of a batch: how many games its list named, and the failures.
pub struct BatchReport {
    pub total: usize,
    pub failures: Vec<Failure>,
}

/// What the driver of a batch is to do next.
pub enum Step {
    /// Start the download of this game.
    Start(String),
    /// Wait for a running download to end, and record how it ended.
    Wait,
    /// Every download has ended.
    Finished,
}

/// The state of a batch, as the contracts see it.
pub struct BatchState {
    /// The games to download, in the order they are started.
    pub queue: Seq<Seq<char>>,
    /// How many of them have been started.
    pub started: nat,
    /// How many of the started ones are still running.
    pub running: nat,
    /// The most that may run at once.
    pub limit: nat,
    /// How many games the list named, skipped ones included.
    pub total: nat,
    /// The failures recorded so far, in the order they were recorded.
    pub failures: Seq<Failure>,
}

/// Downloads of a batch, at most `limit` at a time. The driver asks
/// [`Batch::next_step`] what to do, carries it out, and reports each ended
/// download back; no failure stops the others.
pub struct Batch {
    queue: Vec<String>,
    started: usize,
    running: usize,
    limit: usize,
    total: usize,
    failures: Vec<Failure>,
}

/// Whether another download may start now.
pub open spec fn can_start(s: BatchState) -> bool {
    s.started < s.queue.len() && s.running < s.limit
}

/// Whether every download of the batch has ended.
pub open spec fn is_done(s: BatchState) -> bool {
    s.started == s.queue.len() && s.running == 0
}

impl View for Batch {
    type V = BatchState;

    closed spec fn view(&self) -> BatchState {
        BatchState {
            queue: strings_view(self.queue@),
            started: self.started as nat,
            running: self.running as nat,
            limit: self.limit as nat,
            total: self.total as nat,
            failures: self.failures@,
        }
    }
}

impl Batch {
    /// The invariant of a batch.
    pub closed spec fn wf(&self) -> bool {
        &&& self.limit > 0
        &&& self.started <= self.queue.len()
        &&& self.running <= self.started
        &&& self.running <= self.limit
        &&& self.queue.len() <= self.total
    }

    /// A batch over the games of `ids` whose artwork is not among the files
    /// of `existing`, running at most `limit` downloads at once.
    pub fn new(ids: &Vec<String>, existing: &Vec<String>, limit: usize) -> (r: Batch)
        requires
            limit > 0,
        ensures
            r.wf(),
            r@.queue == pending_spec(strings_view(ids@), strings_view(existing@)),
            r@.started == 0,
            r@.running == 0,
            r@.limit == limit,
            r@.total == ids@.len(),
            r@.failures.len() == 0,
    {
        let queue = pending_ids(ids, existing);
        proof {
            lemma_pending_no_longer(strings_view(ids@), strings_view(existing@));
        }
        Batch { queue, started: 0, running: 0, limit, total: ids.len(), failures: Vec::new() }
    }

    /// How many games the batch skips because their artwork is present.
    pub fn skipped(&self) -> (r: usize)
        requires
            self.wf(),
        ensures
            r == self@.total - self@.queue.len(),
    {
        self.total - self.queue.len()
    }

    /// The next thing to do: start the next game while fewer than `limit`
    /// run, else wait while any runs, else nothing is left.
    pub fn next_step(&mut self) -> (r: Step)
        requires
            old(self).wf(),
        ensures
            final(self).wf(),
            can_start(old(self)@) ==> ({
                &&& r matches Step::Start(id) && id@ == old(self)@.queue[old(self)@.started as int]
                &&& final(self)@ == (BatchState {
                    started: old(self)@.started + 1,
                    running: old(self)@.running + 1,
                    ..old(self)@
                })
            }),
            !can_start(old(self)@) ==> final(self)@ == old(self)@,
            !can_start(old(self)@) && old(self)@.running > 0 ==> r is Wait,
            !can_start(old(self)@) && old(self)@.running == 0 ==> r is Finished && is_done(old(self)@),
    {
        if self.started < self.queue.len() && self.running < self.limit {
            let id = self.queue[self.started].clone();
            self.started = self.started + 1;
            self.running = self.running + 1;
            Step::Start(id)
        } else if self.running > 0 {
            Step::Wait
        } else {
            Step::Finished
        }
    }

    /// Records that a running download stored its artwork.
    pub fn record_success(&mut self)
        requires
            old(self).wf(),
            old(self)@.running > 0,
        ensures
            final(self).wf(),
            final(self)@ == (BatchState { running: (old(self)@.running - 1) as nat, ..old(self)@ }),
    {
        self.running = self.running - 1;
    }

    /// Records that a running download failed, and why.
    pub fn record_failure(&mut self, failure: Failure)
        requires
            old(self).wf(),
            old(self)@.running > 0,
        ensures
            final(self).wf(),
            final(self)@ == (BatchState {
                running: (old(self)@.running - 1) as nat,
                failures: old(self)@.failures.push(failure),
                ..old(self)@
            }),
    {
        self.running = self.running - 1;
        self.failures.push(failure);
    }

    /// The report of the batch.
    pub fn into_report(self) -> (r: BatchReport)
        ensures
            r.total == self@.total,
            r.failures@ == self@.failures,
    {
        BatchReport { total: self.total, failures: self.failures }
    }
}

/// Dropping skipped games never lengthens the list.
proof fn lemma_pending_no_longer(ids: Seq<Seq<char>>, existing: Seq<Seq<char>>)
    ensures
        pending_spec(ids, existing).len() <= ids.len(),
    decreases ids.len(),
{
    if ids.len() > 0 {
        lemma_pending_no_longer(ids.drop_last(), existing);
    }
}

/// The placeholder for a game whose name could not be found.
pub open spec fn name_or_placeholder(name: Option<String>) -> Seq<char> {
    match name {
        Some(n) => n@,
        None => "?"@,
    }
}

/// The report line of one failure.
pub open spec fn failure_line(f: Failure) -> Seq<char> {
    "Name: "@ + name_or_placeholder(f.game_name) + " AppID: "@ + f.game_id@ + " Error: "@
        + error_text(f.error) + "\n"@
}

/// The report lines of failures, in their order.
pub open spec fn failure_lines(fs: Seq<Failure>) -> Seq<char>
    decreases fs.len(),
{
    if fs.len() == 0 {
        Seq::empty()
    } else {
        failure_lines(fs.drop_last()) + failure_line(fs.last())
    }
}

/// The text that reports the failures of a batch: nothing where there were
/// none, else their count and one line for each.
pub open spec fn report_text(fs: Seq<Failure>) -> Seq<char> {
    if fs.len() == 0 {
        Seq::empty()
    } else {
        "Failed to download "@ + decimal(fs.len() as int) + " image"@
            + (if fs.len() > 1 { "s"@ } else { Seq::empty() }) + "\n"@ + failure_lines(fs)
    }
}

impl Failure {
    /// The report line of this failure.
    pub fn line(&self) -> (r: String)
        ensures
            r@ == failure_line(*self),
    {
        proof {
            reveal_strlit("Name: ");
            reveal_strlit("?");
            reveal_strlit(" AppID: ");
            reveal_strlit(" Error: ");
            reveal_strlit("\n");
        }
        let mut r = String::from_str("Name: ");
        match &self.game_name {
            Some(n) => r.append(n.as_str()),
            None => r.append("?"),
        }
        r.append(" AppID: ");
        r.append(self.game_id.as_str());
        r.append(" Error: ");
        let msg = self.error.message();
        r.append(msg.as_str());
        r.append("\n");
        r
    }
}

impl BatchReport {
    /// The text that reports the failures: empty where there were none.
    pub fn summary(&self) -> (r: String)
        ensures
            r@ == report_text(self.failures@),
    {
        proof {
            reveal_strlit("Failed to download ");
            reveal_strlit(" image");
            reveal_strlit("s");
            reveal_strlit("\n");
        }
        let n = self.failures.len();
        if n == 0 {
            return String::new();
        }
        let mut lines = String::new();
        let mut i: usize = 0;
        while i < n
            invariant
                n == self.failures@.len(),
                i <= n,
                lines@ == failure_lines(self.failures@.take(i as int)),
            decreases n - i,
        {
            let line = self.failures[i].line();
            lines.append(line.as_str());
            proof {
                let prefix = self.failures@.take(i + 1);
                assert(prefix.drop_last() == self.failures@.take(i as int));
            }
            i = i + 1;
        }
        assert(self.failures@.take(n as int) == self.failures@);
        let mut r = String::from_str("Failed to download ");
        let count = int_to_decimal(n as i128);
        r.append(count.as_str());
        r.append(" image");
        if n > 1 {
            r.append("s");
        }
        r.append("\n");
        r.append(lines.as_str());
        r
    }
}

/// Full resume: when the destination already holds the artwork of every id,
/// a new batch over those ids starts no download, is done at its first step,
/// and has recorded no failure.
pub proof fn lemma_full_resume(ids: Seq<Seq<char>>, existing: Seq<Seq<char>>, fresh: BatchState)
    requires
        forall|i: int| 0 <= i < ids.len() ==> existing.contains(#[trigger] output_file_name_spec(ids[i])),
        fresh.queue == pending_spec(ids, existing),
        fresh.started == 0,
        fresh.running == 0,
        fresh.failures.len() == 0,
    ensures
        fresh.queue.len() == 0,
        !can_start(fresh),
        is_done(fresh),
        fresh.failures.len() == 0,
{
    lemma_nothing_pending_when_all_saved(ids, existing);
}

} // verus!
