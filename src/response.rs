use vstd::prelude::*;
use crate::classify::{lower_of, lowercase, trim, trimmed_of, FALLBACK_CATEGORY, NO_SUMMARY};

verus! {

/// One part of a message in a model response.
#[derive(Debug, Clone, PartialEq, Eq)]
pub enum MessagePart {
    OutputText(String),
    Other,
}

/// One output item of a model response.
#[derive(Debug, Clone, PartialEq, Eq)]
pub enum OutputContent {
    Message(Vec<MessagePart>),
    Other,
}

/// The first text part at or after index `i` of a message.
pub open spec fn first_text_from(parts: Seq<MessagePart>, i: int) -> Option<Seq<char>>
    decreases parts.len() - i,
{
    if i < 0 || i >= parts.len() {
        None
    } else {
        match parts[i] {
            MessagePart::OutputText(t) => Some(t@),
            MessagePart::Other => first_text_from(parts, i + 1),
        }
    }
}

/// The text an output item carries: the first text part of a message.
pub open spec fn output_text(o: OutputContent) -> Option<Seq<char>> {
    match o {
        OutputContent::Message(parts) => first_text_from(parts@, 0),
        OutputContent::Other => None,
    }
}

pub open spec fn opt_view(o: Option<String>) -> Option<Seq<char>> {
    match o {
        Some(s) => Some(s@),
        None => None,
    }
}

pub fn extract_content_from_output(output: &OutputContent) -> (r: Option<String>)
    ensures
        opt_view(r) == output_text(*output),
{
    match output {
        OutputContent::Message(parts) => {
            let mut i: usize = 0;
            while i < parts.len()
                invariant
                    i <= parts@.len(),
                    first_text_from(parts@, i as int) == output_text(*output),
                decreases parts.len() - i,
            {
                match &parts[i] {
                    MessagePart::OutputText(t) => {
                        let text = t.clone();
                        assert(first_text_from(parts@, i as int) == Some(text@));
                        return Some(text);
                    },
                    MessagePart::Other => {},
                }
                i = i + 1;
            }
            None
        },
        OutputContent::Other => None,
    }
}

/// A model answer turned into a category: trimmed, then lowercased.
pub open spec fn normalized(t: Seq<char>) -> Seq<char> {
    lower_of(trimmed_of(t))
}

/// A category is kept only when it is a non-empty label under 50 characters.
pub open spec fn usable_category(c: Seq<char>) -> bool {
    0 < c.len() < 50
}

/// The category read from the outputs from index `i` on: the first usable
/// normalised text, else the fallback.
pub open spec fn category_from(outs: Seq<OutputContent>, i: int) -> Seq<char>
    decreases outs.len() - i,
{
    if i < 0 || i >= outs.len() {
        FALLBACK_CATEGORY@
    } else {
        match output_text(outs[i]) {
            Some(t) => if usable_category(normalized(t)) {
                normalized(t)
            } else {
                category_from(outs, i + 1)
            },
            None => category_from(outs, i + 1),
        }
    }
}

/// The summary read from the outputs from index `i` on: the first text that is
/// not blank once trimmed, else the fallback.
pub open spec fn summary_from(outs: Seq<OutputContent>, i: int) -> Seq<char>
    decreases outs.len() - i,
{
    if i < 0 || i >= outs.len() {
        NO_SUMMARY@
    } else {
        match output_text(outs[i]) {
            Some(t) => if trimmed_of(t).len() > 0 {
                trimmed_of(t)
            } else {
                summary_from(outs, i + 1)
            },
            None => summary_from(outs, i + 1),
        }
    }
}

/// The category that a response's outputs give.
pub fn category_from_outputs(outputs: &Vec<OutputContent>) -> (r: String)
    ensures
        r@ == category_from(outputs@, 0),
        r@ == FALLBACK_CATEGORY@ || exists|t: Seq<char>| r@ == lower_of(trimmed_of(t)),
{
    let mut i: usize = 0;
    while i < outputs.len()
        invariant
            i <= outputs@.len(),
            category_from(outputs@, i as int) == category_from(outputs@, 0),
        decreases outputs.len() - i,
    {
        if let Some(content) = extract_content_from_output(&outputs[i]) {
            let category = lowercase(trim(content.as_str()));
            if category.as_str().unicode_len() > 0 && category.as_str().unicode_len() < 50 {
                return category;
            }
        }
        i = i + 1;
    }
    String::from_str(FALLBACK_CATEGORY)
}

/// The summary that a response's outputs give.
pub fn summary_from_outputs(outputs: &Vec<OutputContent>) -> (r: String)
    ensures
        r@ == summary_from(outputs@, 0),
{
    let mut i: usize = 0;
    while i < outputs.len()
        invariant
            i <= outputs@.len(),
            summary_from(outputs@, i as int) == summary_from(outputs@, 0),
        decreases outputs.len() - i,
    {
        if let Some(content) = extract_content_from_output(&outputs[i]) {
            let summary = trim(content.as_str());
            if summary.unicode_len() > 0 {
                return String::from_str(summary);
            }
        }
        i = i + 1;
    }
    String::from_str(NO_SUMMARY)
}

} // verus!
