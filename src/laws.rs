use vstd::prelude::*;

use crate::screen::safe_to_parse;
use crate::settings::EngineSettings;
use crate::uci::{
    input_ended, line_debug, line_handled, ready_resolved, reply_models, routed, Command, Reply, ReplyModel, ServiceState,
    UciService,
};
use crate::{ENGINE_AUTHOR, ENGINE_NAME};

verus! {

/// Two batches queued one after the other leave the writer in that order:
/// the earlier queue first, then every message of the first batch in its
/// order, then every message of the second batch in its order.
pub proof fn lemma_batches_keep_order(
    w0: Seq<ReplyModel>,
    w1: Seq<ReplyModel>,
    w2: Seq<ReplyModel>,
    a: Seq<Reply>,
    b: Seq<Reply>,
)
    requires
        w1 == w0 + reply_models(a),
        w2 == w1 + reply_models(b),
    ensures
        w2.len() == w0.len() + a.len() + b.len(),
        forall|i: int| 0 <= i < w0.len() ==> w2[i] == w0[i],
        forall|i: int| 0 <= i < a.len() ==> w2[w0.len() + i] == a[i]@,
        forall|j: int| 0 <= j < b.len() ==> w2[w0.len() + a.len() + j] == b[j]@,
{
}

/// A readiness check queues no reply and suspends the dispatcher, so no later
/// line is routed before the signal; once the signal fires, exactly one
/// `readyok` follows what was queued before.
pub proof fn lemma_ready_acknowledged_after_signal(s0: UciService, s1: UciService, s2: UciService)
    requires
        s0.wf(),
        s0.state == ServiceState::Running,
        routed(s0, s1, Command::IsReady),
        ready_resolved(s1, s2, true),
    ensures
        s1.writer@ == s0.writer@,
        s1.state == ServiceState::AwaitingReady,
        forall|line: Seq<char>, t: UciService, r: bool|
            line_handled(s1, t, line, r) ==> !r && t == s1,
        s2.writer@ == s0.writer@.push(ReplyModel::ReadyOk),
        s2.state == ServiceState::Running,
{
    assert(s1.writer@ =~= s0.writer@);
}

/// Writing an option twice keeps the second value, and the second write adds
/// no entry.
pub proof fn lemma_option_last_write_wins(
    s0: EngineSettings,
    s1: EngineSettings,
    s2: EngineSettings,
    name: Seq<char>,
    first: Seq<char>,
    second: Seq<char>,
)
    requires
        s1.wf(),
        s1@ == s0@.insert(name, first),
        s2@ == s1@.insert(name, second),
    ensures
        s2@ == s0@.insert(name, second),
        s2@[name] == second,
        s2@.len() == s1@.len(),
{
    s1.lemma_options_finite();
    assert(s2@ =~= s0@.insert(name, second));
    assert(s2@.dom() =~= s1@.dom());
}

/// The command writes the debug flag.
pub open spec fn is_debug_command(c: Command) -> bool {
    c is Debug
}

/// Over any run of routed commands, the debug flag ends equal to the value of
/// the last debug command, whatever option writes stand between; without any
/// debug command it keeps its first value.
pub proof fn lemma_debug_holds_last_value(trace: Seq<UciService>, cmds: Seq<Command>)
    requires
        trace.len() == cmds.len() + 1,
        forall|i: int| 0 <= i < cmds.len() ==> routed(trace[i], trace[i + 1], cmds[i]),
    ensures
        (forall|i: int| 0 <= i < cmds.len() ==> !is_debug_command(cmds[i]))
            ==> trace.last().engine_settings.debug_on() == trace[0].engine_settings.debug_on(),
        forall|i: int, on: bool|
            0 <= i < cmds.len() && cmds[i] == Command::Debug(on) && (forall|j: int|
                i < j < cmds.len() ==> !is_debug_command(cmds[j]))
                ==> trace.last().engine_settings.debug_on() == on,
    decreases cmds.len(),
{
    if cmds.len() > 0 {
        let n = cmds.len() - 1;
        let pt = trace.drop_last();
        let pc = cmds.drop_last();
        assert forall|i: int| 0 <= i < pc.len() implies routed(pt[i], pt[i + 1], pc[i]) by {
            assert(pt[i] == trace[i] && pt[i + 1] == trace[i + 1] && pc[i] == cmds[i]);
        }
        lemma_debug_holds_last_value(pt, pc);
        assert(routed(trace[n], trace[n + 1], cmds[n]));
        assert(pt.last() == trace[n]);
        assert forall|i: int, on: bool|
            0 <= i < cmds.len() && cmds[i] == Command::Debug(on) && (forall|j: int|
                i < j < cmds.len() ==> !is_debug_command(cmds[j]))
                implies trace.last().engine_settings.debug_on() == on by {
            if i < n {
                assert(!is_debug_command(cmds[n]));
                assert forall|j: int| i < j < pc.len() implies !is_debug_command(pc[j]) by {
                    assert(pc[j] == cmds[j]);
                }
                assert(pc[i] == cmds[i]);
            }
        }
        if forall|i: int| 0 <= i < cmds.len() ==> !is_debug_command(cmds[i]) {
            assert(!is_debug_command(cmds[n]));
            assert forall|i: int| 0 <= i < pc.len() implies !is_debug_command(pc[i]) by {
                assert(pc[i] == cmds[i]);
            }
        }
    }
}

/// A line that is no known command, or one that only an engine sends, queues
/// nothing, writes no setting, hands out no work, and leaves the dispatcher
/// running for the lines after it.
pub proof fn lemma_unrecognized_is_inert(s0: UciService, s1: UciService, cmd: Command)
    requires
        cmd is Unrecognized || cmd is EngineBound,
        routed(s0, s1, cmd),
    ensures
        s1.writer@ == s0.writer@,
        s1.engine_settings.debug_on() == s0.engine_settings.debug_on(),
        s1.engine_settings@ == s0.engine_settings@,
        s1.work_queue@ == s0.work_queue@,
        s1.state == ServiceState::Running,
{
    assert(s1.writer@ =~= s0.writer@);
}

/// A line that is not handed to the parser does not stop the dispatcher: it
/// is routed as unrecognized and changes nothing.
pub proof fn lemma_unreadable_line_is_inert(s0: UciService, s1: UciService, line: Seq<char>)
    requires
        !safe_to_parse(line),
        line_handled(s0, s1, line, true),
    ensures
        s1.writer@ == s0.writer@,
        s1.engine_settings.debug_on() == s0.engine_settings.debug_on(),
        s1.engine_settings@ == s0.engine_settings@,
        s1.work_queue@ == s0.work_queue@,
        s1.state == ServiceState::Running,
{
    let text = choose|text: String| text@ == line && routed(s0, s1, Command::Unrecognized(text));
    lemma_unrecognized_is_inert(s0, s1, Command::Unrecognized(text));
}

/// Routing one line sets the debug flag to the value of a debug command and
/// leaves it as it was for any other line.
pub proof fn lemma_line_debug_step(s: UciService, t: UciService, line: Seq<char>)
    requires
        line_handled(s, t, line, true),
    ensures
        t.engine_settings.debug_on() == (match line_debug(line) {
            Some(on) => on,
            None => s.engine_settings.debug_on(),
        }),
{
    if !safe_to_parse(line) {
        let text = choose|text: String|
            text@ == line && routed(s, t, Command::Unrecognized(text));
        assert(routed(s, t, Command::Unrecognized(text)));
    }
}

/// Over any run of input lines routed one after the other, the debug flag ends
/// equal to the value of the last line that sets it, whatever lines (option
/// writes among them) stand between; without such a line it keeps its first
/// value.
pub proof fn lemma_lines_debug_holds_last_value(trace: Seq<UciService>, lines: Seq<Seq<char>>)
    requires
        trace.len() == lines.len() + 1,
        forall|i: int| 0 <= i < lines.len() ==> line_handled(trace[i], trace[i + 1], lines[i], true),
    ensures
        (forall|i: int| 0 <= i < lines.len() ==> line_debug(lines[i]) is None)
            ==> trace.last().engine_settings.debug_on() == trace[0].engine_settings.debug_on(),
        forall|i: int, on: bool|
            0 <= i < lines.len() && line_debug(lines[i]) == Some(on) && (forall|j: int|
                i < j < lines.len() ==> line_debug(lines[j]) is None)
                ==> trace.last().engine_settings.debug_on() == on,
    decreases lines.len(),
{
    if lines.len() > 0 {
        let n = lines.len() - 1;
        let pt = trace.drop_last();
        let pl = lines.drop_last();
        assert forall|i: int| 0 <= i < pl.len() implies line_handled(pt[i], pt[i + 1], pl[i], true) by {
            assert(pt[i] == trace[i] && pt[i + 1] == trace[i + 1] && pl[i] == lines[i]);
        }
        lemma_lines_debug_holds_last_value(pt, pl);
        lemma_line_debug_step(trace[n], trace[n + 1], lines[n]);
        assert(pt.last() == trace[n]);
        assert forall|i: int, on: bool|
            0 <= i < lines.len() && line_debug(lines[i]) == Some(on) && (forall|j: int|
                i < j < lines.len() ==> line_debug(lines[j]) is None)
                implies trace.last().engine_settings.debug_on() == on by {
            if i < n {
                assert(line_debug(lines[n]) is None);
                assert forall|j: int| i < j < pl.len() implies line_debug(pl[j]) is None by {
                    assert(pl[j] == lines[j]);
                }
                assert(pl[i] == lines[i]);
            }
        }
        if forall|i: int| 0 <= i < lines.len() ==> line_debug(lines[i]) is None {
            assert(line_debug(lines[n]) is None);
            assert forall|i: int| 0 <= i < pl.len() implies line_debug(pl[i]) is None by {
                assert(pl[i] == lines[i]);
            }
        }
    }
}

/// After `quit`, or once the input stream closed, no later line is routed,
/// however many follow, and what was queued for output before stays queued
/// to be written.
pub proof fn lemma_shutdown_stops_routing(
    s0: UciService,
    trace: Seq<UciService>,
    lines: Seq<Seq<char>>,
    routed_flags: Seq<bool>,
)
    requires
        trace.len() == lines.len() + 1,
        routed_flags.len() == lines.len(),
        routed(s0, trace[0], Command::Quit) || input_ended(s0, trace[0]),
        forall|i: int|
            0 <= i < lines.len() ==> line_handled(trace[i], trace[i + 1], lines[i], routed_flags[i]),
    ensures
        trace[0].writer@ == s0.writer@,
        forall|i: int| 0 <= i < lines.len() ==> !routed_flags[i],
        forall|i: int| 0 <= i < trace.len() ==> #[trigger] trace[i] == trace[0],
    decreases lines.len(),
{
    assert(trace[0].writer@ =~= s0.writer@);
    if lines.len() > 0 {
        let n = lines.len() - 1;
        let pt = trace.drop_last();
        let pl = lines.drop_last();
        let pf = routed_flags.drop_last();
        assert forall|i: int| 0 <= i < pl.len() implies line_handled(
            pt[i],
            pt[i + 1],
            pl[i],
            pf[i],
        ) by {
            assert(pt[i] == trace[i] && pt[i + 1] == trace[i + 1]);
            assert(pl[i] == lines[i] && pf[i] == routed_flags[i]);
        }
        lemma_shutdown_stops_routing(s0, pt, pl, pf);
        assert(pt[n] == trace[n]);
        assert(line_handled(trace[n], trace[n + 1], lines[n], routed_flags[n]));
        assert forall|i: int| 0 <= i < lines.len() implies !routed_flags[i] by {
            if i < n {
                assert(pf[i] == routed_flags[i]);
            }
        }
        assert forall|i: int| 0 <= i < trace.len() implies #[trigger] trace[i] == trace[0] by {
            if i <= n {
                assert(pt[i] == trace[i]);
            }
        }
    }
}

/// A handshake request queues exactly two replies after whatever was queued,
/// whatever the dispatcher's settings: the identification with the engine's
/// name and author, then `uciok`.
pub proof fn lemma_handshake_replies(s0: UciService, s1: UciService)
    requires
        routed(s0, s1, Command::Uci),
    ensures
        s1.writer@.len() == s0.writer@.len() + 2,
        s1.writer@.subrange(0, s0.writer@.len() as int) == s0.writer@,
        s1.writer@[s0.writer@.len() as int] == (ReplyModel::Id {
            name: ENGINE_NAME@,
            author: ENGINE_AUTHOR@,
        }),
        s1.writer@[s0.writer@.len() + 1int] == ReplyModel::UciOk,
        s1.state == ServiceState::Running,
{
    assert(s1.writer@.subrange(0, s0.writer@.len() as int) =~= s0.writer@);
}

} // verus!
