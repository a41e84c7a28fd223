//! The log of updates that were rolled back.
//!
//! One line per failed update: the container's name, a space, and the digest of
//! the image that did not start. Lines of any other form say nothing, so the file
//! can be edited by hand.
use vstd::prelude::*;

use crate::text;

verus! {

/// An update that was rolled back.
#[derive(Debug, PartialEq)]
pub struct FailedUpdate {
    pub container: String,
    pub digest: String,
}

/// An update that was rolled back: the container's name and the image's digest.
pub struct FailedUpdateView {
    pub container: Seq<char>,
    pub digest: Seq<char>,
}

impl View for FailedUpdate {
    type V = FailedUpdateView;

    open spec fn view(&self) -> FailedUpdateView {
        FailedUpdateView { container: self.container@, digest: self.digest@ }
    }
}

/// What a list of failed updates holds.
pub open spec fn updates(list: Seq<FailedUpdate>) -> Seq<FailedUpdateView> {
    Seq::new(list.len(), |i: int| list[i]@)
}

/// The failed update that a line of the log names.
pub open spec fn entry(line: Seq<char>) -> Option<FailedUpdateView> {
    let line = text::trimmed(line);
    match line.index_of_first(' ') {
        Some(space) => Some(
            FailedUpdateView {
                container: line.take(space),
                digest: text::trimmed(line.skip(space + 1)),
            },
        ),
        None => None,
    }
}

/// The failed updates that the lines of a log name.
pub open spec fn entries(lines: Seq<Seq<char>>) -> Seq<FailedUpdateView>
    decreases lines.len(),
{
    if lines.len() == 0 {
        Seq::empty()
    } else {
        match entry(lines.last()) {
            Some(update) => entries(lines.drop_last()).push(update),
            None => entries(lines.drop_last()),
        }
    }
}

/// The failed updates that a log names.
pub open spec fn logged(log: Seq<char>) -> Seq<FailedUpdateView> {
    entries(text::pieces(log, '\n'))
}

/// The log with one more failed update.
pub open spec fn with_failure(
    log: Seq<char>,
    container: Seq<char>,
    digest: Seq<char>,
) -> Seq<char> {
    let lines = if log.len() > 0 && log.last() != '\n' {
        log + "\n"@
    } else {
        log
    };
    lines + container + " "@ + digest + "\n"@
}

/// Whether an update of `container` to the image `digest` failed before.
pub open spec fn blocked(
    failed: Seq<FailedUpdateView>,
    container: Seq<char>,
    digest: Seq<char>,
) -> bool {
    failed.contains(FailedUpdateView { container, digest })
}

/// Reads the log.
pub fn parse_failed(log: &str) -> (r: Vec<FailedUpdate>)
    ensures
        updates(r@) == logged(log@),
        r@.len() == logged(log@).len(),
        forall|i: int|
            0 <= i < r@.len() ==> (#[trigger] r@[i]).container@ == logged(log@)[i].container
                && r@[i].digest@ == logged(log@)[i].digest,
{
    let lines = text::split(log, '\n');
    let mut out: Vec<FailedUpdate> = Vec::new();
    let ghost all = text::contents(lines@);
    let mut i: usize = 0;
    assert(updates(out@) == entries(all.take(0)));
    while i < lines.len()
        invariant
            i <= lines.len(),
            all == text::contents(lines@),
            updates(out@) == entries(all.take(i as int)),
        decreases lines.len() - i,
    {
        let ghost before = updates(out@);
        assert(all.take(i + 1).drop_last() == all.take(i as int));
        let line = text::trim(lines[i].as_str());
        let chars = text::characters(line);
        let mut space: usize = 0;
        while space < chars.len() && chars[space] != ' '
            invariant
                space <= chars.len(),
                chars@ == line@,
                forall|k: int| 0 <= k < space ==> chars@[k] != ' ',
            decreases chars.len() - space,
        {
            space = space + 1;
        }
        proof {
            line@.index_of_first_ensures(' ');
        }
        if space < chars.len() {
            assert(line@.contains(' ')) by {
                assert(line@[space as int] == ' ');
            }
            let ghost first = line@.index_of_first(' ').unwrap();
            assert(first == space) by {
                if first < space {
                    assert(chars@[first] != ' ');
                }
            }
            let rest = text::trim(line.substring_char(space + 1, chars.len()));
            out.push(
                FailedUpdate {
                    container: line.substring_char(0, space).to_owned(),
                    digest: rest.to_owned(),
                },
            );
            assert(line@.subrange(space + 1, line@.len() as int) == line@.skip(space + 1));
            assert(updates(out@) == before.push(entry(all[i as int]).unwrap()));
        } else {
            assert(!line@.contains(' '));
        }
        i = i + 1;
    }
    assert(all.take(i as int) == all);
    assert forall|i: int| 0 <= i < out@.len() implies (#[trigger] out@[i]).container@ == logged(
        log@,
    )[i].container && out@[i].digest@ == logged(log@)[i].digest by {
        assert(updates(out@)[i] == out@[i]@);
    }
    out
}

/// Whether an update of `container` to the image `digest` failed before.
pub fn is_blocked(failed: &Vec<FailedUpdate>, container: &str, digest: &str) -> (r: bool)
    ensures
        r == blocked(updates(failed@), container@, digest@),
        r <==> exists|i: int|
            0 <= i < failed@.len() && (#[trigger] failed@[i]).container@ == container@
                && failed@[i].digest@ == digest@,
{
    let ghost list = updates(failed@);
    let mut i: usize = 0;
    while i < failed.len()
        invariant
            i <= failed.len(),
            list == updates(failed@),
            forall|k: int|
                0 <= k < i ==> #[trigger] list[k] != (FailedUpdateView {
                    container: container@,
                    digest: digest@,
                }),
        decreases failed.len() - i,
    {
        assert(list[i as int] == failed@[i as int]@);
        if text::same(failed[i].container.as_str(), container) && text::same(
            failed[i].digest.as_str(),
            digest,
        ) {
            return true;
        }
        i = i + 1;
    }
    proof {
        if exists|k: int|
            0 <= k < failed@.len() && (#[trigger] failed@[k]).container@ == container@
                && failed@[k].digest@ == digest@ {
            let k = choose|k: int|
                0 <= k < failed@.len() && (#[trigger] failed@[k]).container@ == container@
                    && failed@[k].digest@ == digest@;
            assert(list[k] == failed@[k]@);
        }
    }
    false
}

/// Adds a failed update to the log.
pub fn record_failure(log: &str, container: &str, digest: &str) -> (r: String)
    ensures
        r@ == with_failure(log@, container@, digest@),
        log@.len() == 0 || log@.last() == '\n' ==> r@ == log@ + container@ + seq![' '] + digest@
            + seq!['\n'],
        log@.len() > 0 && log@.last() != '\n' ==> r@ == log@ + seq!['\n'] + container@ + seq![' ']
            + digest@ + seq!['\n'],
{
    proof {
        reveal_strlit("\n");
        reveal_strlit(" ");
        assert("\n"@ == seq!['\n']);
        assert(" "@ == seq![' ']);
    }
    let mut out = log.to_owned();
    let len = log.unicode_len();
    if len > 0 && log.get_char(len - 1) != '\n' {
        out.append("\n");
    }
    out.append(container);
    out.append(" ");
    out.append(digest);
    out.append("\n");
    out
}

/// A container's name that can begin a line: not empty, on one line, with no space in
/// it and no whitespace before it.
pub open spec fn is_name(s: Seq<char>) -> bool {
    &&& s.len() > 0
    &&& !text::is_whitespace(s.first())
    &&& !s.contains(' ')
    &&& !s.contains('\n')
}

/// A digest that can end a line: not empty, on one line, with no whitespace around it.
pub open spec fn is_digest(s: Seq<char>) -> bool {
    &&& s.len() > 0
    &&& !text::is_whitespace(s.first())
    &&& !text::is_whitespace(s.last())
    &&& !s.contains('\n')
}

/// The line that names a failed update is read back.
proof fn lemma_entry_of_line(container: Seq<char>, digest: Seq<char>)
    requires
        is_name(container),
        is_digest(digest),
    ensures
        entry(container + " "@ + digest) == Some(FailedUpdateView { container, digest }),
        !(container + " "@ + digest).contains('\n'),
{
    reveal_strlit(" ");
    let line = container + " "@ + digest;
    assert(line.first() == container.first());
    assert(line.last() == digest.last());
    assert(text::trimmed(line) == line);
    assert(line[container.len() as int] == ' ');
    line.index_of_first_ensures(' ');
    let space = line.index_of_first(' ').unwrap();
    if space < container.len() {
        assert(line[space] == container[space]);
    }
    assert(space == container.len());
    assert(line.take(space) == container);
    assert(line.skip(space + 1) == digest);
    assert(text::trimmed(digest) == digest);
    assert forall|k: int| 0 <= k < line.len() implies line[k] != '\n' by {
        if k < container.len() {
            assert(line[k] == container[k]);
        } else if k > container.len() {
            assert(line[k] == digest[k - container.len() - 1]);
        }
    }
}

/// Recording a failed update adds it to what the log names, whatever the log
/// held, and keeps the rest.
pub proof fn law_recorded_failure_is_read_back(
    log: Seq<char>,
    container: Seq<char>,
    digest: Seq<char>,
)
    requires
        is_name(container),
        is_digest(digest),
    ensures
        logged(with_failure(log, container, digest)) == logged(log).push(
            FailedUpdateView { container, digest },
        ),
{
    reveal_strlit("\n");
    reveal_strlit(" ");
    reveal_with_fuel(entries, 3);
    let line = container + " "@ + digest;
    let update = FailedUpdateView { container, digest };
    lemma_entry_of_line(container, digest);
    let empty = Seq::<char>::empty();
    assert(entry(empty) is None) by {
        empty.index_of_first_ensures(' ');
    }
    let new_log = with_failure(log, container, digest);
    text::lemma_pieces_single(line, '\n');
    text::lemma_pieces_single(empty, '\n');
    text::lemma_pieces_join(line, empty, '\n');
    let tail = line + seq!['\n'] + empty;
    assert(tail == line + "\n"@);
    assert(text::pieces(tail, '\n') == seq![line, empty]);
    if log.len() == 0 {
        assert(new_log == tail);
        assert(seq![line, empty].drop_last() == seq![line]);
        assert(seq![line].drop_last() == Seq::<Seq<char>>::empty());
        assert(text::pieces(log, '\n') == seq![empty]);
        assert(seq![empty].drop_last() == Seq::<Seq<char>>::empty());
        assert(logged(log) == Seq::<FailedUpdateView>::empty());
        assert(logged(new_log) == Seq::<FailedUpdateView>::empty().push(update));
    } else {
        let head = if log.last() == '\n' {
            log.drop_last()
        } else {
            log
        };
        assert(new_log == head + seq!['\n'] + tail);
        text::lemma_pieces_join(head, tail, '\n');
        let before = text::pieces(head, '\n');
        let all = before + seq![line, empty];
        assert(text::pieces(new_log, '\n') == all);
        assert(all.last() == empty);
        assert(all.drop_last() == before.push(line));
        assert(before.push(line).drop_last() == before);
        assert(logged(new_log) == entries(before).push(update));
        if log.last() == '\n' {
            assert(log == head + seq!['\n'] + empty);
            text::lemma_pieces_join(head, empty, '\n');
            assert(text::pieces(log, '\n') == before.push(empty));
            assert(before.push(empty).drop_last() == before);
        }
    }
}

/// A recorded failure blocks the same image for the same container, and no other
/// update: a different digest is attempted as before.
pub proof fn law_recorded_failure_blocks_only_itself(
    log: Seq<char>,
    container: Seq<char>,
    digest: Seq<char>,
    other_container: Seq<char>,
    other_digest: Seq<char>,
)
    requires
        is_name(container),
        is_digest(digest),
    ensures
        ({
            let after = logged(with_failure(log, container, digest));
            &&& blocked(after, container, digest)
            &&& (other_container, other_digest) != (container, digest) ==> (blocked(
                after,
                other_container,
                other_digest,
            ) <==> blocked(logged(log), other_container, other_digest))
        }),
{
    law_recorded_failure_is_read_back(log, container, digest);
    let before = logged(log);
    let update = FailedUpdateView { container, digest };
    let after = before.push(update);
    assert(after[before.len() as int] == update);
    let other = FailedUpdateView { container: other_container, digest: other_digest };
    if before.contains(other) {
        let k = choose|k: int| 0 <= k < before.len() && before[k] == other;
        assert(after[k] == other);
    }
    if other != update && after.contains(other) {
        let k = choose|k: int| 0 <= k < after.len() && after[k] == other;
        assert(before[k] == other);
    }
}

/// An update that no line of the log names is not blocked: removing the line
/// is enough to retry it.
pub proof fn law_without_its_line_an_update_is_not_blocked(
    log: Seq<char>,
    container: Seq<char>,
    digest: Seq<char>,
)
    requires
        forall|i: int|
            0 <= i < text::pieces(log, '\n').len() ==> entry(#[trigger] text::pieces(log, '\n')[i])
                != Some(FailedUpdateView { container, digest }),
    ensures
        !blocked(logged(log), container, digest),
{
    lemma_entries_come_from_lines(text::pieces(log, '\n'));
}

/// Every entry comes from a line.
proof fn lemma_entries_come_from_lines(lines: Seq<Seq<char>>)
    ensures
        forall|k: int|
            0 <= k < entries(lines).len() ==> exists|i: int|
                0 <= i < lines.len() && entry(#[trigger] lines[i]) == Some(
                    #[trigger] entries(lines)[k],
                ),
    decreases lines.len(),
{
    if lines.len() > 0 {
        let init = lines.drop_last();
        lemma_entries_come_from_lines(init);
        assert forall|k: int| 0 <= k < entries(lines).len() implies exists|i: int|
            0 <= i < lines.len() && entry(#[trigger] lines[i]) == Some(
                #[trigger] entries(lines)[k],
            ) by {
            if k < entries(init).len() {
                let i = choose|i: int|
                    0 <= i < init.len() && entry(#[trigger] init[i]) == Some(entries(init)[k]);
                assert(lines[i] == init[i]);
            } else {
                assert(entry(lines[lines.len() - 1]) == Some(entries(lines)[k]));
            }
        }
    }
}

/// An update is blocked exactly if it is one of those that failed: the same container and
/// the same digest.
pub proof fn law_what_failed_is_blocked(
    failed: Seq<FailedUpdateView>,
    container: Seq<char>,
    digest: Seq<char>,
)
    ensures
        blocked(failed, container, digest) <==> exists|i: int|
            0 <= i < failed.len() && (#[trigger] failed[i]).container == container
                && failed[i].digest == digest,
{
    let update = FailedUpdateView { container, digest };
    if failed.contains(update) {
        let i = choose|i: int| 0 <= i < failed.len() && failed[i] == update;
        assert(failed[i].container == container);
    }
    if exists|i: int|
        0 <= i < failed.len() && (#[trigger] failed[i]).container == container && failed[i].digest
            == digest {
        let i = choose|i: int|
            0 <= i < failed.len() && (#[trigger] failed[i]).container == container
                && failed[i].digest == digest;
        assert(failed[i] == update);
    }
}

/// A line names an update if there is a space in it: the container stands before the
/// first one, and the digest behind it, without the whitespace around the line and around
/// the digest.
pub proof fn law_a_line_names_an_update(line: Seq<char>)
    ensures
        entry(line) is Some <==> text::trimmed(line).contains(' '),
        entry(line) matches Some(update) ==> {
            let rest = text::trimmed(line).skip(update.container.len() as int + 1);
            &&& !update.container.contains(' ')
            &&& text::trimmed(line) == update.container + seq![' '] + rest
            &&& update.digest == text::trimmed(rest)
        },
{
    let t = text::trimmed(line);
    t.index_of_first_ensures(' ');
    if entry(line) is Some {
        let update = entry(line)->0;
        let space = t.index_of_first(' ')->0;
        assert(update.container == t.take(space));
        assert forall|k: int| 0 <= k < space implies update.container[k] != ' ' by {
            assert(update.container[k] == t[k]);
        }
        assert(t == update.container + seq![' '] + t.skip(space + 1));
    }
}

/// The updates that lines name come in the order of the lines.
proof fn lemma_entries_joined(a: Seq<Seq<char>>, b: Seq<Seq<char>>)
    ensures
        entries(a + b) == entries(a) + entries(b),
    decreases b.len(),
{
    if b.len() == 0 {
        assert(a + b == a);
        assert(entries(a) + entries(b) == entries(a));
    } else {
        lemma_entries_joined(a, b.drop_last());
        assert((a + b).drop_last() == a + b.drop_last());
        assert((a + b).last() == b.last());
        if entry(b.last()) is Some {
            let update = entry(b.last())->0;
            assert(entries(a) + entries(b.drop_last()).push(update) == (entries(a) + entries(
                b.drop_last(),
            )).push(update));
        }
    }
}

/// The log is read line by line, in order: what two parts of it name, divided by a line
/// break, is what the one names and then what the other does; and a single line names its
/// update, where it has one.
pub proof fn law_the_log_is_read_line_by_line(a: Seq<char>, b: Seq<char>)
    ensures
        logged(a + seq!['\n'] + b) == logged(a) + logged(b),
        !a.contains('\n') && entry(a) is Some ==> logged(a) == seq![entry(a)->0],
        !a.contains('\n') && entry(a) is None ==> logged(a) == Seq::<FailedUpdateView>::empty(),
{
    text::lemma_pieces_join(a, b, '\n');
    lemma_entries_joined(text::pieces(a, '\n'), text::pieces(b, '\n'));
    if !a.contains('\n') {
        text::lemma_pieces_single(a, '\n');
        reveal_with_fuel(entries, 2);
        assert(seq![a].drop_last() == Seq::<Seq<char>>::empty());
    }
}

} // verus!
