use vstd::prelude::*;
use crate::text::{contains_seq, text_contains, trimmed, trimmed_of};
use crate::transport::{Outcome, OutcomeView};

verus! {

pub open spec fn digit_text(d: int) -> Seq<char> {
    if d == 0 {
        "0"@
    } else if d == 1 {
        "1"@
    } else if d == 2 {
        "2"@
    } else if d == 3 {
        "3"@
    } else if d == 4 {
        "4"@
    } else if d == 5 {
        "5"@
    } else if d == 6 {
        "6"@
    } else if d == 7 {
        "7"@
    } else if d == 8 {
        "8"@
    } else {
        "9"@
    }
}

/// The decimal digits of `n`, without leading zeros.
pub open spec fn decimal_spec(n: u64) -> Seq<char>
    decreases n,
{
    if n < 10 {
        digit_text(n as int)
    } else {
        decimal_spec(n / 10) + digit_text((n % 10) as int)
    }
}

fn digit(d: u64) -> (r: &'static str)
    requires
        d < 10,
    ensures
        r@ == digit_text(d as int),
{
    if d == 0 {
        "0"
    } else if d == 1 {
        "1"
    } else if d == 2 {
        "2"
    } else if d == 3 {
        "3"
    } else if d == 4 {
        "4"
    } else if d == 5 {
        "5"
    } else if d == 6 {
        "6"
    } else if d == 7 {
        "7"
    } else if d == 8 {
        "8"
    } else {
        "9"
    }
}

/// Writes `n` in decimal.
pub fn decimal(n: u64) -> (r: String)
    ensures
        r@ == decimal_spec(n),
    decreases n,
{
    if n < 10 {
        String::from_str(digit(n))
    } else {
        decimal(n / 10).concat(digit(n % 10))
    }
}

/// Marker that a listing body of the endpoint is recognised by.
pub open spec fn marker() -> Seq<char> {
    "models"@
}

pub open spec fn probe_text(body: Seq<char>) -> Seq<char> {
    if contains_seq(body, marker()) {
        "Connection successful! Ollama is running and accessible."@
    } else {
        "Connected but unexpected response format."@
    }
}

/// The outcome of a connectivity probe that answered with `body`.
pub fn probe_result(body: &str) -> (r: Outcome)
    ensures
        r@ == (OutcomeView::Success { text: probe_text(body@), elapsed_ms: 0 }),
{
    let text = if text_contains(body, "models") {
        String::from_str("Connection successful! Ollama is running and accessible.")
    } else {
        String::from_str("Connected but unexpected response format.")
    };
    Outcome::Success { text, elapsed_ms: 0 }
}

pub open spec fn listing_text(body: Seq<char>) -> Seq<char> {
    if contains_seq(body, marker()) {
        if trimmed_of(body) == "{\"models\":[]}"@ {
            "No models currently loaded in RAM.\n\nUse 'Pre-load Models' to cache them for faster responses!"@
        } else {
            "Models in RAM:\n"@ + body + "\n\nLoaded models will respond much faster!"@
        }
    } else {
        "Model status:\n"@ + body
    }
}

/// The outcome of a listing of loaded models that answered with `body`; an
/// empty listing is a valid state.
pub fn listing_result(body: &str) -> (r: Outcome)
    ensures
        r@ == (OutcomeView::Success { text: listing_text(body@), elapsed_ms: 0 }),
{
    let text = if text_contains(body, "models") {
        let t = trimmed(body);
        let empty_listing = String::from_str("{\"models\":[]}");
        if t.eq(&empty_listing) {
            String::from_str(
                "No models currently loaded in RAM.\n\nUse 'Pre-load Models' to cache them for faster responses!",
            )
        } else {
            String::from_str("Models in RAM:\n").concat(body).concat(
                "\n\nLoaded models will respond much faster!",
            )
        }
    } else {
        String::from_str("Model status:\n").concat(body)
    };
    Outcome::Success { text, elapsed_ms: 0 }
}

pub open spec fn preload_line(label: Seq<char>, o: OutcomeView) -> Seq<char> {
    match o {
        OutcomeView::Success { elapsed_ms, .. } => label + " loaded: "@ + decimal_spec(elapsed_ms)
            + "ms"@,
        OutcomeView::Failure { message } => label + " failed: "@ + message,
    }
}

pub open spec fn preload_text(first: OutcomeView, second: OutcomeView) -> Seq<char> {
    "Models pre-loaded into RAM!\n"@ + preload_line("Q4"@, first) + "\n"@ + preload_line(
        "Q5"@,
        second,
    )
        + "\n\nNext requests should be much faster since models are cached in memory.\nStarting 5-second cooldown to prevent overwhelming Ollama..."@
}

fn preload_line_of(label: &str, o: &Outcome) -> (r: String)
    ensures
        r@ == preload_line(label@, o@),
{
    match o {
        Outcome::Success { elapsed_ms, .. } => String::from_str(label).concat(" loaded: ").concat(
            decimal(*elapsed_ms).as_str(),
        ).concat("ms"),
        Outcome::Failure { message } => String::from_str(label).concat(" failed: ").concat(
            message.as_str(),
        ),
    }
}

/// The outcome of a preload, from the outcomes of its warm-up calls to the
/// first and the second variant; it succeeds whatever they were.
pub fn preload_result(first: &Outcome, second: &Outcome) -> (r: Outcome)
    ensures
        r@ == (OutcomeView::Success { text: preload_text(first@, second@), elapsed_ms: 0 }),
{
    let text = String::from_str("Models pre-loaded into RAM!\n").concat(
        preload_line_of("Q4", first).as_str(),
    ).concat("\n").concat(preload_line_of("Q5", second).as_str()).concat(
        "\n\nNext requests should be much faster since models are cached in memory.\nStarting 5-second cooldown to prevent overwhelming Ollama...",
    );
    Outcome::Success { text, elapsed_ms: 0 }
}

} // verus!
