use vstd::prelude::*;

use std::time::Duration;

verus! {

/// The command line of the program, as parsed values.
#[derive(Clone, Debug)]
pub struct CliArgs {
    /// The file of the game's Lua script; empty where none is given.
    pub game: String,
    /// Whether the game runs by itself from the start.
    pub auto_run: bool,
    /// How many times a second the screen is redrawn.
    pub refresh_rate: u8,
    /// How many spaces stand for a tab of the script.
    pub tab_to_spaces: u8,
}

/// The settings that the program runs with.
#[derive(Debug)]
pub struct AppConfig {
    pub refresh_delay: Duration,
    pub game_lua_code: String,
    pub auto_run: bool,
}

impl Clone for AppConfig {
    /// A copy of the settings.
    fn clone(&self) -> (copy: AppConfig)
        ensures
            copy == *self,
    {
        AppConfig {
            refresh_delay: self.refresh_delay,
            game_lua_code: self.game_lua_code.clone(),
            auto_run: self.auto_run,
        }
    }
}

/// The duration of `ms` milliseconds, as `Duration::from_millis` gives it.
pub uninterp spec fn duration_from_millis(ms: u64) -> Duration;

/// `Duration::from_millis`: the claim is only that the result is the duration that the
/// standard library makes of `ms` milliseconds.
#[verifier::external_body]
fn millis(ms: u64) -> (d: Duration)
    ensures
        d == duration_from_millis(ms),
{
    Duration::from_millis(ms)
}

/// `String::push`: appends `c` to `s`, as the standard library documents it.
#[verifier::external_body]
fn push_char(s: &mut String, c: char)
    ensures
        final(s)@ == old(s)@.push(c),
{
    s.push(c)
}

/// `n` spaces.
pub open spec fn spaces(n: nat) -> Seq<char> {
    Seq::new(n, |_k: int| ' ')
}

/// `text` with each tab replaced by `n` spaces.
pub open spec fn expand_tabs(text: Seq<char>, n: nat) -> Seq<char>
    decreases text.len(),
{
    if text.len() == 0 {
        Seq::empty()
    } else {
        let front = expand_tabs(text.drop_last(), n);
        if text.last() == '\t' {
            front + spaces(n)
        } else {
            front.push(text.last())
        }
    }
}

/// Replacing tabs works piece by piece: the text `a + b` comes out as `a` comes out followed
/// by `b` as it comes out, wherever the pieces are cut.
pub proof fn lemma_expand_tabs_concat(a: Seq<char>, b: Seq<char>, n: nat)
    ensures
        expand_tabs(a + b, n) == expand_tabs(a, n) + expand_tabs(b, n),
    decreases b.len(),
{
    if b.len() == 0 {
        assert(a + b == a);
        assert(expand_tabs(a, n) + expand_tabs(b, n) == expand_tabs(a, n));
    } else {
        assert((a + b).drop_last() == a + b.drop_last());
        assert((a + b).last() == b.last());
        lemma_expand_tabs_concat(a, b.drop_last(), n);
        if b.last() == '\t' {
            assert(expand_tabs(a, n) + expand_tabs(b.drop_last(), n) + spaces(n) == expand_tabs(a, n) + (
            expand_tabs(b.drop_last(), n) + spaces(n)));
        } else {
            assert((expand_tabs(a, n) + expand_tabs(b.drop_last(), n)).push(b.last()) == expand_tabs(a, n) + expand_tabs(
                b.drop_last(),
                n,
            ).push(b.last()));
        }
    }
}

/// A single character comes out as itself, except a tab, which comes out as exactly `n`
/// spaces. With the law above, this fixes what every text comes out as: every tab, wherever
/// it stands, becomes `n` spaces, and nothing else changes.
pub proof fn lemma_expand_single_char(c: char, n: nat)
    ensures
        c != '\t' ==> expand_tabs(seq![c], n) == seq![c],
        c == '\t' ==> expand_tabs(seq![c], n).len() == n && forall|k: int|
            0 <= k < n ==> #[trigger] expand_tabs(seq![c], n)[k] == ' ',
{
    assert(seq![c].drop_last() == Seq::<char>::empty());
    assert(seq![c].last() == c);
    assert(expand_tabs(Seq::<char>::empty(), n) == Seq::<char>::empty());
    assert(expand_tabs(seq![c], n) == expand_tabs(seq![c].drop_last(), n) + (if c == '\t' {
        spaces(n)
    } else {
        seq![c]
    })) by {
        if c != '\t' {
            assert(expand_tabs(seq![c].drop_last(), n).push(c) == expand_tabs(seq![c].drop_last(), n) + seq![c]);
        }
    }
    if c != '\t' {
        assert(Seq::<char>::empty().push(c) == seq![c]);
    } else {
        assert(Seq::<char>::empty() + spaces(n) == spaces(n));
    }
}

/// The delay between two redraws is the whole number of milliseconds in a thousandth of a
/// second divided by the refresh rate: the largest `d` with `d * refresh_rate <= 1000`.
pub proof fn lemma_refresh_delay_is_quotient(refresh_rate: u8)
    requires
        refresh_rate >= 1,
    ensures
        refresh_delay_millis(refresh_rate) * refresh_rate <= 1000,
        1000 < (refresh_delay_millis(refresh_rate) + 1) * refresh_rate,
{
    let r = refresh_rate as int;
    let q = 1000int / r;
    vstd::arithmetic::div_mod::lemma_fundamental_div_mod(1000, r);
    vstd::arithmetic::div_mod::lemma_div_is_ordered_by_denominator(1000, 1, r);
    assert(0 <= q <= 1000);
    assert(refresh_delay_millis(refresh_rate) == q);
    assert(q * r <= 1000 < (q + 1) * r) by (nonlinear_arith)
        requires
            1000 == r * q + 1000int % r,
            0 <= 1000int % r < r,
    ;
}

/// No tab is left once the tabs are replaced by spaces.
pub proof fn lemma_expanded_has_no_tabs(text: Seq<char>, n: nat)
    ensures
        !expand_tabs(text, n).contains('\t'),
    decreases text.len(),
{
    if text.len() > 0 {
        lemma_expanded_has_no_tabs(text.drop_last(), n);
        let front = expand_tabs(text.drop_last(), n);
        if text.last() == '\t' {
            assert forall|k: int| 0 <= k < front.len() + n implies (front + spaces(n))[k] != '\t' by {
                if k < front.len() {
                    assert(front[k] == (front + spaces(n))[k]);
                }
            }
        } else {
            assert forall|k: int| 0 <= k < front.len() + 1 implies front.push(text.last())[k] != '\t' by {
                if k < front.len() {
                    assert(front[k] == front.push(text.last())[k]);
                }
            }
        }
    }
}

/// A text without tabs comes out unchanged.
pub proof fn lemma_tab_free_text_unchanged(text: Seq<char>, n: nat)
    requires
        !text.contains('\t'),
    ensures
        expand_tabs(text, n) == text,
    decreases text.len(),
{
    if text.len() > 0 {
        assert(!text.drop_last().contains('\t')) by {
            if text.drop_last().contains('\t') {
                let k = choose|k: int| 0 <= k < text.drop_last().len() && text.drop_last()[k] == '\t';
                assert(text[k] == '\t');
            }
        }
        lemma_tab_free_text_unchanged(text.drop_last(), n);
        assert(text.last() == text[text.len() - 1]);
        assert(text.drop_last().push(text.last()) == text);
    }
}

/// The script that the program starts with: none where no file is named or the file could
/// not be read, else the file's text with its tabs replaced by `tab_to_spaces` spaces.
pub open spec fn loaded_script(file_name: Seq<char>, tab_to_spaces: u8, content: Option<Seq<char>>) -> Seq<char> {
    if file_name.len() == 0 {
        Seq::empty()
    } else {
        match content {
            Some(text) => expand_tabs(text, tab_to_spaces as nat),
            None => Seq::empty(),
        }
    }
}

/// The program starts with a script only where a file is named and could be read: with no
/// file name, or a file that could not be read, it starts with none; with a file read, it
/// starts with the file's text, its tabs replaced and nothing else changed.
pub proof fn lemma_script_only_from_a_named_file(file_name: Seq<char>, tab_to_spaces: u8, content: Option<Seq<char>>)
    ensures
        file_name.len() == 0 ==> loaded_script(file_name, tab_to_spaces, content).len() == 0,
        content is None ==> loaded_script(file_name, tab_to_spaces, content).len() == 0,
        file_name.len() > 0 && content is Some ==> loaded_script(file_name, tab_to_spaces, content) == expand_tabs(
            content->0,
            tab_to_spaces as nat,
        ),
        file_name.len() > 0 && (content matches Some(text) && !text.contains('\t')) ==> loaded_script(
            file_name,
            tab_to_spaces,
            content,
        ) == content->0,
{
    if file_name.len() > 0 && (content matches Some(text) && !text.contains('\t')) {
        lemma_tab_free_text_unchanged(content->0, tab_to_spaces as nat);
    }
}

/// The delay between two redraws at `refresh_rate` redraws a second, in whole milliseconds.
pub open spec fn refresh_delay_millis(refresh_rate: u8) -> u64
    recommends
        refresh_rate > 0,
{
    (1000int / (refresh_rate as int)) as u64
}

/// Whether a script file is named: the program reads one only then.
pub fn script_file_named(file_name: &str) -> (named: bool)
    ensures
        named == (file_name@.len() > 0),
{
    !file_name.is_empty()
}

/// `text` with each tab replaced by `tab_to_spaces` spaces.
pub fn replace_tabs(text: &str, tab_to_spaces: u8) -> (res: String)
    ensures
        res@ == expand_tabs(text@, tab_to_spaces as nat),
{
    let mut res = String::new();
    let ghost n = tab_to_spaces as nat;
    for c in it: text.chars()
        invariant
            it.seq() == text@,
            n == tab_to_spaces as nat,
            res@ == expand_tabs(text@.take(it.index() as int), n),
    {
        let ghost k = it.index() as int;
        proof {
            assert(text@.take(k + 1).drop_last() == text@.take(k));
            assert(text@.take(k + 1).last() == c);
        }
        if c == '\t' {
            let ghost before = res@;
            let mut s: u8 = 0;
            while s < tab_to_spaces
                invariant
                    s <= tab_to_spaces,
                    res@ == before + spaces(s as nat),
                decreases tab_to_spaces - s,
            {
                push_char(&mut res, ' ');
                s = s + 1;
            }
        } else {
            push_char(&mut res, c);
        }
        assert(res@ == expand_tabs(text@.take(k + 1), n));
    }
    assert(text@.take(text@.len() as int) == text@);
    res
}

/// The script that the program starts with, given what reading the file `file_name` gave
/// (`None` where it was not read or could not be read).
pub fn try_load_file(file_name: &str, tab_to_spaces: u8, content: Option<String>) -> (script: String)
    ensures
        script@ == loaded_script(
            file_name@,
            tab_to_spaces,
            match content {
                Some(c) => Some(c@),
                None => None,
            },
        ),
{
    if !script_file_named(file_name) {
        return String::new();
    }
    match content {
        Some(text) => replace_tabs(text.as_str(), tab_to_spaces),
        None => String::new(),
    }
}

/// The settings of the program for the command line `args`, with `content` what reading
/// the script file gave.
pub fn setup(args: &CliArgs, content: Option<String>) -> (config: AppConfig)
    requires
        args.refresh_rate > 0,
    ensures
        config.refresh_delay == duration_from_millis(refresh_delay_millis(args.refresh_rate)),
        config.game_lua_code@ == loaded_script(
            args.game@,
            args.tab_to_spaces,
            match content {
                Some(c) => Some(c@),
                None => None,
            },
        ),
        config.auto_run == args.auto_run,
{
    let rate: u64 = args.refresh_rate as u64;
    AppConfig {
        refresh_delay: millis(1000 / rate),
        game_lua_code: try_load_file(args.game.as_str(), args.tab_to_spaces, content),
        auto_run: args.auto_run,
    }
}

} // verus!
