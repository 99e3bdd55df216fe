//! What the screen shows of a session: a history pane above a three-row input
//! pane, each with a border and a title.
use vstd::prelude::*;

verus! {

/// Height in rows of the input pane, border included.
pub const INPUT_ROWS: u16 = 3;

/// One bordered region of the screen.
pub struct Pane {
    pub title: String,
    pub body: String,
}

/// The two regions, history above input.
pub struct Screen {
    pub history: Pane,
    pub input: Pane,
}

/// One history entry as shown: `$ <command>`, a line break, then the output.
pub open spec fn entry_text(e: (Seq<char>, Seq<char>)) -> Seq<char> {
    seq!['$', ' '] + e.0 + seq!['\n'] + e.1
}

/// All entries as shown, oldest first, separated by a blank line.
pub open spec fn history_body(h: Seq<(Seq<char>, Seq<char>)>) -> Seq<char>
    decreases h.len(),
{
    if h.len() == 0 {
        Seq::empty()
    } else if h.len() == 1 {
        entry_text(h[0])
    } else {
        history_body(h.drop_last()) + seq!['\n', '\n'] + entry_text(h.last())
    }
}

/// The model of a list of `(command, output)` pairs.
pub open spec fn entries_view(blocks: Seq<(String, String)>) -> Seq<(Seq<char>, Seq<char>)> {
    blocks.map_values(|e: (String, String)| (e.0@, e.1@))
}

/// The text of the history pane.
pub fn history_text(blocks: &Vec<(String, String)>) -> (r: String)
    ensures
        r@ == history_body(entries_view(blocks@)),
{
    let ghost h = entries_view(blocks@);
    let mut text = String::new();
    let mut i: usize = 0;
    while i < blocks.len()
        invariant
            i <= blocks.len(),
            h == entries_view(blocks@),
            text@ == history_body(h.take(i as int)),
        decreases blocks.len() - i,
    {
        let ghost before = text@;
        if i > 0 {
            text.append("\n\n");
        }
        text.append("$ ");
        text.append(blocks[i].0.as_str());
        text.append("\n");
        text.append(blocks[i].1.as_str());
        proof {
            reveal_strlit("\n\n");
            reveal_strlit("$ ");
            reveal_strlit("\n");
            assert("\n\n"@ =~= seq!['\n', '\n']);
            assert("$ "@ =~= seq!['$', ' ']);
            assert("\n"@ =~= seq!['\n']);
            assert(h[i as int] == (blocks@[i as int].0@, blocks@[i as int].1@));
            let t = h.take(i + 1);
            assert(t.drop_last() =~= h.take(i as int));
            assert(t.last() == h[i as int]);
            if i == 0 {
                assert(before =~= Seq::empty());
                assert(text@ =~= entry_text(h[0]));
            } else {
                assert(text@ =~= before + seq!['\n', '\n'] + entry_text(h[i as int]));
            }
        }
        i = i + 1;
    }
    assert(h.take(blocks.len() as int) =~= h);
    text
}

/// A screen whose history pane shows `history` and whose input pane shows `input`.
pub fn screen_of(blocks: &Vec<(String, String)>, input: &String) -> (r: Screen)
    ensures
        r.history.title@ == "Shell Output"@,
        r.history.body@ == history_body(entries_view(blocks@)),
        r.input.title@ == "Command"@,
        r.input.body@ == input@,
{
    Screen {
        history: Pane { title: String::from_str("Shell Output"), body: history_text(blocks) },
        input: Pane { title: String::from_str("Command"), body: input.clone() },
    }
}

} // verus!
