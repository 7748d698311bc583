//! Assembly of the option string for scatter-plot commands.
//!
//! Numeric option values arrive already rendered as text (`None` standing
//! for an unset value), since how a number is rendered is a concern of the
//! caller's scalar representation; every decision about which fragments
//! appear, and in which order, is made and verified here.

use crate::util::{dec_of, usize_to_decimal};
use vstd::prelude::*;
use vstd::string::StrSliceExecFns;
use vstd::string::StringExecFns;

verus! {

/// The options of a scatter-plot command. An empty string or a `None`
/// stands for an option left unset.
pub struct ScatterOptions {
    /// alpha (0, 1], rendered
    pub line_alpha: Option<String>,
    /// color
    pub line_color: String,
    /// style
    pub line_style: String,
    /// width, rendered
    pub line_width: Option<String>,
    /// alpha (0, 1], rendered
    pub marker_alpha: Option<String>,
    /// color
    pub marker_color: String,
    /// mark-every
    pub marker_every: i32,
    /// void marker (draw edge only)
    pub marker_is_void: bool,
    /// edge color
    pub marker_line_color: String,
    /// edge style
    pub marker_line_style: String,
    /// edge width, rendered
    pub marker_line_width: Option<String>,
    /// size, rendered
    pub marker_size: Option<String>,
    /// type, e.g., "o", "+"
    pub marker_style: String,
}

/// `frag` when `cond` holds, and nothing otherwise.
pub open spec fn maybe(cond: bool, frag: Seq<char>) -> Seq<char> {
    if cond {
        frag
    } else {
        Seq::empty()
    }
}

/// The line color actually used: a void marker with no line color set
/// falls back to red.
pub open spec fn effective_line_color(o: &ScatterOptions) -> Seq<char> {
    if o.marker_is_void && o.line_color@.len() == 0 {
        "red"@
    } else {
        o.line_color@
    }
}

/// The full option text: one comma-led fragment for each option that is
/// set, in a fixed order.
pub open spec fn scatter_options_text(o: &ScatterOptions) -> Seq<char> {
    maybe(o.line_alpha is Some, ",alpha="@ + o.line_alpha->0@) + maybe(
        effective_line_color(o).len() > 0,
        ",color='"@ + effective_line_color(o) + "'"@,
    ) + maybe(o.line_style@.len() > 0, ",linestyle='"@ + o.line_style@ + "'"@) + maybe(
        o.line_width is Some,
        ",linewidth="@ + o.line_width->0@,
    ) + maybe(o.marker_alpha is Some, ",markeralpha="@ + o.marker_alpha->0@) + maybe(
        o.marker_color@.len() > 0,
        ",markerfacecolor='"@ + o.marker_color@ + "'"@,
    ) + maybe(o.marker_every > 0, ",markevery="@ + dec_of(o.marker_every as nat)) + maybe(
        o.marker_is_void,
        ",markerfacecolor='none'"@,
    ) + maybe(
        o.marker_line_color@.len() > 0,
        ",markeredgecolor='"@ + o.marker_line_color@ + "'"@,
    ) + maybe(
        o.marker_line_style@.len() > 0,
        ",markerlinestyle='"@ + o.marker_line_style@ + "'"@,
    ) + maybe(o.marker_line_width is Some, ",markeredgewidth="@ + o.marker_line_width->0@)
        + maybe(o.marker_size is Some, ",markersize="@ + o.marker_size->0@) + maybe(
        o.marker_style@.len() > 0,
        ",marker='"@ + o.marker_style@ + "'"@,
    )
}

/// Builds the command that plots the two arrays written to the buffer
/// under the given identifiers, with the given option text.
pub fn scatter_command(sx: &str, sy: &str, options: &str) -> (r: String)
    ensures
        r@ == "plt.scatter("@ + sx@ + ","@ + sy@ + options@ + ")\n"@,
{
    let mut s = String::new();
    s.append("plt.scatter(");
    s.append(sx);
    s.append(",");
    s.append(sy);
    s.append(options);
    s.append(")\n");
    proof {
        assert(s@ =~= "plt.scatter("@ + sx@ + ","@ + sy@ + options@ + ")\n"@);
    }
    s
}

/// Appends a rendered numeric option, when it is set, after its key.
fn append_rendered(result: &mut String, prefix: &str, value: &Option<String>)
    ensures
        final(result)@ == old(result)@ + maybe(value is Some, prefix@ + value->0@),
{
    match value {
        Some(v) => {
            result.append(prefix);
            result.append(v.as_str());
            proof {
                assert(result@ =~= old(result)@ + (prefix@ + v@));
            }
        },
        None => {
            proof {
                assert(result@ =~= old(result)@ + maybe(false, prefix@ + value->0@));
            }
        },
    }
}

/// Appends a textual option, when it is non-empty, after its key and
/// wrapped by a closing quote.
fn append_quoted(result: &mut String, prefix: &str, value: &str)
    ensures
        final(result)@ == old(result)@ + maybe(value@.len() > 0, prefix@ + value@ + "'"@),
{
    if !value.is_empty() {
        result.append(prefix);
        result.append(value);
        result.append("'");
        proof {
            assert(result@ =~= old(result)@ + (prefix@ + value@ + "'"@));
        }
    } else {
        proof {
            assert(result@ =~= old(result)@ + maybe(false, prefix@ + value@ + "'"@));
        }
    }
}

/// Appends a fixed fragment when the condition holds.
fn append_if(result: &mut String, cond: bool, text: &str)
    ensures
        final(result)@ == old(result)@ + maybe(cond, text@),
{
    if cond {
        result.append(text);
    } else {
        proof {
            assert(result@ =~= old(result)@ + maybe(false, text@));
        }
    }
}

/// Appends the mark-every option, when it is positive, in decimal.
fn append_mark_every(result: &mut String, marker_every: i32)
    ensures
        final(result)@ == old(result)@ + maybe(
            marker_every > 0,
            ",markevery="@ + dec_of(marker_every as nat),
        ),
{
    if marker_every > 0 {
        result.append(",markevery=");
        let rendered = usize_to_decimal(marker_every as usize);
        result.append(rendered.as_str());
        proof {
            assert(result@ =~= old(result)@ + (",markevery="@ + dec_of(marker_every as nat)));
        }
    } else {
        proof {
            assert(result@ =~= old(result)@ + maybe(false, ",markevery="@ + dec_of(
                marker_every as nat,
            )));
        }
    }
}

impl ScatterOptions {
    /// Serializes the set options into a comma-led argument string.
    pub fn options(&self) -> (r: String)
        ensures
            r@ == scatter_options_text(self),
    {
        let mut result = String::new();

        // lines
        append_rendered(&mut result, ",alpha=", &self.line_alpha);
        // fix color if marker is void
        let line_color: &str = if self.marker_is_void && self.line_color.as_str().is_empty() {
            "red"
        } else {
            self.line_color.as_str()
        };
        proof {
            assert(line_color@ == effective_line_color(self));
        }
        append_quoted(&mut result, ",color='", line_color);
        append_quoted(&mut result, ",linestyle='", self.line_style.as_str());
        append_rendered(&mut result, ",linewidth=", &self.line_width);

        // markers
        append_rendered(&mut result, ",markeralpha=", &self.marker_alpha);
        append_quoted(&mut result, ",markerfacecolor='", self.marker_color.as_str());
        append_mark_every(&mut result, self.marker_every);
        append_if(&mut result, self.marker_is_void, ",markerfacecolor='none'");
        append_quoted(&mut result, ",markeredgecolor='", self.marker_line_color.as_str());
        append_quoted(&mut result, ",markerlinestyle='", self.marker_line_style.as_str());
        append_rendered(&mut result, ",markeredgewidth=", &self.marker_line_width);
        append_rendered(&mut result, ",markersize=", &self.marker_size);
        append_quoted(&mut result, ",marker='", self.marker_style.as_str());

        proof {
            assert(Seq::<char>::empty() + maybe(
                self.line_alpha is Some,
                ",alpha="@ + self.line_alpha->0@,
            ) =~= maybe(self.line_alpha is Some, ",alpha="@ + self.line_alpha->0@));
        }
        result
    }
}

} // verus!
