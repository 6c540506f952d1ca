//! The scripts that may rework bytes on their way out and on their way in.
//! The manager holds the scripts and says whether one is to be run; running
//! it is the caller's.

use vstd::prelude::*;
use vstd::string::*;
use crate::text::{chars_of, char_is_whitespace, is_whitespace};

verus! {

/// Whether a script holds nothing but whitespace.
pub open spec fn is_blank(script: Seq<char>) -> bool {
    forall|i: int| 0 <= i < script.len() ==> is_whitespace(#[trigger] script[i])
}

pub fn text_is_blank(script: &str) -> (blank: bool)
    ensures
        blank == is_blank(script@),
{
    let chars = chars_of(script);
    let mut i: usize = 0;
    while i < chars.len()
        invariant
            i <= chars.len(),
            chars@ == script@,
            forall|k: int| 0 <= k < i ==> is_whitespace(#[trigger] chars@[k]),
        decreases chars.len() - i,
    {
        if !char_is_whitespace(chars[i]) {
            return false;
        }
        i = i + 1;
    }
    true
}

/// What is to happen to some bytes.
#[derive(Debug)]
pub enum ScriptStep {
    /// No script is set: the bytes pass as they are.
    Pass { data: Vec<u8> },
    /// The script is to be run on the bytes; what it leaves in `data`
    /// takes their place.
    Run { script: String, data: Vec<u8> },
}

pub enum ScriptStepView {
    Pass { data: Seq<u8> },
    Run { script: Seq<char>, data: Seq<u8> },
}

impl View for ScriptStep {
    type V = ScriptStepView;

    open spec fn view(&self) -> ScriptStepView {
        match self {
            ScriptStep::Pass { data } => ScriptStepView::Pass { data: data@ },
            ScriptStep::Run { script, data } => ScriptStepView::Run {
                script: script@,
                data: data@,
            },
        }
    }
}

/// What a script does to bytes: nothing where it is blank.
pub open spec fn script_step(script: Seq<char>, data: Seq<u8>) -> ScriptStepView {
    if is_blank(script) {
        ScriptStepView::Pass { data }
    } else {
        ScriptStepView::Run { script, data }
    }
}

/// The three scripts, for contracts.
pub struct ScriptsView {
    pub pre_send: Seq<char>,
    pub post_send: Seq<char>,
    pub rx: Seq<char>,
}

/// The scripts: one for bytes before they are sent, one for after, one
/// for bytes that were received.
#[derive(Debug)]
pub struct ScriptManager {
    pre_send_script: String,
    post_send_script: String,
    rx_script: String,
}

impl View for ScriptManager {
    type V = ScriptsView;

    closed spec fn view(&self) -> ScriptsView {
        ScriptsView {
            pre_send: self.pre_send_script@,
            post_send: self.post_send_script@,
            rx: self.rx_script@,
        }
    }
}

fn decide(script: &String, data: Vec<u8>) -> (step: ScriptStep)
    ensures
        step@ == script_step(script@, data@),
{
    if text_is_blank(script.as_str()) {
        ScriptStep::Pass { data }
    } else {
        ScriptStep::Run { script: script.clone(), data }
    }
}

impl ScriptManager {
    /// A manager without scripts.
    pub fn new() -> (manager: Self)
        ensures
            manager@ == (ScriptsView {
                pre_send: Seq::empty(),
                post_send: Seq::empty(),
                rx: Seq::empty(),
            }),
    {
        ScriptManager {
            pre_send_script: String::new(),
            post_send_script: String::new(),
            rx_script: String::new(),
        }
    }

    pub fn set_pre_send_script(&mut self, script: String)
        ensures
            final(self)@ == (ScriptsView { pre_send: script@, ..old(self)@ }),
    {
        self.pre_send_script = script;
    }

    pub fn set_post_send_script(&mut self, script: String)
        ensures
            final(self)@ == (ScriptsView { post_send: script@, ..old(self)@ }),
    {
        self.post_send_script = script;
    }

    pub fn set_rx_script(&mut self, script: String)
        ensures
            final(self)@ == (ScriptsView { rx: script@, ..old(self)@ }),
    {
        self.rx_script = script;
    }

    /// What is to happen to bytes that are about to be sent.
    pub fn run_pre_send(&self, data: Vec<u8>) -> (step: ScriptStep)
        ensures
            step@ == script_step(self@.pre_send, data@),
    {
        decide(&self.pre_send_script, data)
    }

    /// What is to happen to bytes that were received.
    pub fn run_rx_script(&self, data: Vec<u8>) -> (step: ScriptStep)
        ensures
            step@ == script_step(self@.rx, data@),
    {
        decide(&self.rx_script, data)
    }
}

} // verus!
