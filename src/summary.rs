//! Meeting summaries and the plain-text transcript they are made from.
use vstd::prelude::*;

verus! {

/// A structured summary of a meeting.
#[derive(Clone, Debug)]
pub struct Summary {
    pub key_points: Vec<String>,
    pub decisions: Vec<String>,
    pub action_items: Vec<ActionItem>,
}

/// A task decided in a meeting, with the person it was given to, if any.
#[derive(Clone, Debug)]
pub struct ActionItem {
    pub description: String,
    pub assignee: Option<String>,
}

/// One transcribed segment, attributed to a speaker when diarization named one.
#[derive(Clone, Debug)]
pub struct TranscriptLine {
    pub speaker: Option<String>,
    pub text: String,
}

/// A line of the transcript: `speaker: text`, or the bare text.
pub open spec fn line_spec(l: TranscriptLine) -> Seq<char> {
    match l.speaker {
        Some(sp) => sp@ + ": "@ + l.text@,
        None => l.text@,
    }
}

/// The lines joined by newlines.
pub open spec fn transcript_spec(lines: Seq<TranscriptLine>) -> Seq<char>
    decreases lines.len(),
{
    if lines.len() == 0 {
        Seq::empty()
    } else if lines.len() == 1 {
        line_spec(lines[0])
    } else {
        transcript_spec(lines.drop_last()) + "\n"@ + line_spec(lines.last())
    }
}

/// The transcript, with text still being transcribed live appended as a last
/// line when there is any.
pub open spec fn transcript_with_live_spec(lines: Seq<TranscriptLine>, live: Option<Seq<char>>) -> Seq<
    char,
> {
    let t = transcript_spec(lines);
    match live {
        Some(lt) => if lt.len() == 0 {
            t
        } else if t.len() == 0 {
            lt
        } else {
            t + "\n"@ + lt
        },
        None => t,
    }
}

fn append_line(out: &mut String, l: &TranscriptLine)
    ensures
        final(out)@ == old(out)@ + line_spec(*l),
{
    match &l.speaker {
        Some(sp) => {
            out.append(sp.as_str());
            out.append(": ");
            out.append(l.text.as_str());
        },
        None => {
            out.append(l.text.as_str());
        },
    }
}

/// Join the lines into the plain-text transcript handed to the summary and
/// search services.
pub fn build_transcript(lines: &Vec<TranscriptLine>, live_text: &Option<String>) -> (r: String)
    ensures
        r@ == transcript_with_live_spec(
            lines@,
            match live_text {
                Some(s) => Some(s@),
                None => None,
            },
        ),
{
    let mut out = String::new();
    let mut i: usize = 0;
    while i < lines.len()
        invariant
            i <= lines@.len(),
            out@ == transcript_spec(lines@.subrange(0, i as int)),
        decreases lines@.len() - i,
    {
        proof {
            let next = lines@.subrange(0, i + 1);
            assert(next.drop_last() =~= lines@.subrange(0, i as int));
            if i == 0 {
                assert(next.len() == 1);
            }
        }
        if i > 0 {
            out.append("\n");
        }
        append_line(&mut out, &lines[i]);
        i = i + 1;
    }
    assert(lines@.subrange(0, lines@.len() as int) =~= lines@);
    if let Some(lt) = live_text {
        if !lt.as_str().is_empty() {
            if !out.as_str().is_empty() {
                out.append("\n");
            }
            out.append(lt.as_str());
        }
    }
    out
}

} // verus!
