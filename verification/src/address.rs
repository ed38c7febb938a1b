//! Input model: the two ways of naming an address (free-form string or
//! structured field set) and a coordinate pair, each with its rendering into
//! the wire representation the service expects.

use vstd::prelude::*;
use vstd::seq_lib::*;

verus! {

/// A coordinate pair. Latitude and longitude are carried as decimal text so
/// that the wire rendering keeps the caller's full precision unchanged.
#[derive(Debug, Clone, PartialEq, Eq)]
pub struct Coordinates {
    pub latitude: String,
    pub longitude: String,
}

/// A structured address. Every field is independently optional; absent fields
/// are simply skipped by the renderer.
#[derive(Debug, Clone, PartialEq, Eq)]
pub struct AddressInput {
    pub line_1: Option<String>,
    pub line_2: Option<String>,
    pub city: Option<String>,
    pub state: Option<String>,
    pub country: Option<String>,
    pub postal_code: Option<String>,
}

/// One address input: either a free-form string sent as-is, or a structured
/// field set rendered by [`AddressInput::fmt_string`].
#[derive(Debug, Clone, PartialEq, Eq)]
pub enum AddressParams {
    Freeform(String),
    Structured(AddressInput),
}

/// The parts list contributed by one optional field: one element when the
/// field is present, none when it is absent.
pub open spec fn opt_part(o: Option<String>) -> Seq<Seq<char>> {
    match o {
        Some(s) => seq![s@],
        None => Seq::empty(),
    }
}

/// The present fields of a structured address, in the fixed rendering order:
/// line 1, line 2, city, state, postal code, country.
pub open spec fn address_parts(a: AddressInput) -> Seq<Seq<char>> {
    opt_part(a.line_1) + opt_part(a.line_2) + opt_part(a.city) + opt_part(a.state)
        + opt_part(a.postal_code) + opt_part(a.country)
}

/// The parts joined by the separator, with no leading or trailing separator
/// and exactly one separator between adjacent parts.
pub open spec fn join_parts(parts: Seq<Seq<char>>, sep: Seq<char>) -> Seq<char>
    decreases parts.len(),
{
    if parts.len() == 0 {
        Seq::empty()
    } else if parts.len() == 1 {
        parts[0]
    } else {
        parts[0] + sep + join_parts(parts.subrange(1, parts.len() as int), sep)
    }
}

/// Appending one more part extends the joined string by a separator (when
/// anything was there already) and the part itself.
pub proof fn lemma_join_push(parts: Seq<Seq<char>>, sep: Seq<char>, x: Seq<char>)
    ensures
        join_parts(parts.push(x), sep) == (if parts.len() == 0 {
            x
        } else {
            join_parts(parts, sep) + sep + x
        }),
    decreases parts.len(),
{
    let pushed = parts.push(x);
    if parts.len() == 0 {
        assert(pushed.len() == 1);
        assert(pushed[0] == x);
    } else {
        assert(pushed.len() >= 2);
        assert(pushed.subrange(1, pushed.len() as int) =~= parts.subrange(
            1,
            parts.len() as int,
        ).push(x));
        lemma_join_push(parts.subrange(1, parts.len() as int), sep, x);
        if parts.len() == 1 {
            assert(join_parts(parts, sep) == parts[0]);
            assert(join_parts(pushed, sep) == parts[0] + sep + x);
        } else {
            assert(join_parts(pushed, sep) == pushed[0] + sep + join_parts(
                pushed.subrange(1, pushed.len() as int),
                sep,
            ));
            assert(join_parts(parts, sep) + sep + x =~= parts[0] + sep + (join_parts(
                parts.subrange(1, parts.len() as int),
                sep,
            ) + sep + x));
        }
    }
}

/// The total length of the parts themselves.
pub open spec fn parts_total_len(parts: Seq<Seq<char>>) -> nat
    decreases parts.len(),
{
    if parts.len() == 0 {
        0
    } else {
        parts[0].len() + parts_total_len(parts.subrange(1, parts.len() as int))
    }
}

/// The joined string holds exactly the parts and one separator between each
/// adjacent pair: its length is the parts' total length plus `n - 1`
/// separators, so nothing is doubled, dropped or left dangling.
pub proof fn lemma_join_parts_len(parts: Seq<Seq<char>>, sep: Seq<char>)
    ensures
        join_parts(parts, sep).len() == (if parts.len() == 0 {
            0
        } else {
            parts_total_len(parts) + sep.len() * (parts.len() - 1)
        }),
    decreases parts.len(),
{
    if parts.len() == 1 {
        assert(parts.subrange(1, 1) =~= Seq::<Seq<char>>::empty());
        assert(parts_total_len(parts.subrange(1, 1)) == 0);
    } else if parts.len() > 1 {
        let rest = parts.subrange(1, parts.len() as int);
        lemma_join_parts_len(rest, sep);
        assert(sep.len() * (parts.len() - 1) == sep.len() + sep.len() * (rest.len() - 1))
            by (nonlinear_arith)
            requires
                rest.len() == parts.len() - 1,
                parts.len() > 1,
        ;
    }
}

/// What one rendered input looks like on the wire.
pub open spec fn spec_rendered(a: AddressParams) -> Seq<char> {
    match a {
        AddressParams::Freeform(s) => s@,
        AddressParams::Structured(ai) => join_parts(address_parts(ai), ", "@),
    }
}

/// What one rendered coordinate pair looks like on the wire: latitude and
/// longitude joined by a single comma.
pub open spec fn spec_coords_rendered(c: Coordinates) -> Seq<char> {
    c.latitude@ + ","@ + c.longitude@
}

impl AddressInput {
    /// Renders the present fields in the fixed order, comma-separated: exactly
    /// the present fields appear, each once, with one `", "` between adjacent
    /// ones and nothing at the ends.
    pub fn fmt_string(&self) -> (r: String)
        ensures
            r@ == join_parts(address_parts(*self), ", "@),
    {
        let mut out = String::new();
        let mut first: bool = true;
        let ghost sep: Seq<char> = ", "@;
        let ghost mut done: Seq<Seq<char>> = Seq::empty();
        if let Some(s) = &self.line_1 {
            if !first {
                out.append(", ");
            }
            out.append(s.as_str());
            first = false;
            proof {
                lemma_join_push(done, sep, s@);
                done = done.push(s@);
            }
        }
        if let Some(s) = &self.line_2 {
            if !first {
                out.append(", ");
            }
            out.append(s.as_str());
            first = false;
            proof {
                lemma_join_push(done, sep, s@);
                done = done.push(s@);
            }
        }
        if let Some(s) = &self.city {
            if !first {
                out.append(", ");
            }
            out.append(s.as_str());
            first = false;
            proof {
                lemma_join_push(done, sep, s@);
                done = done.push(s@);
            }
        }
        if let Some(s) = &self.state {
            if !first {
                out.append(", ");
            }
            out.append(s.as_str());
            first = false;
            proof {
                lemma_join_push(done, sep, s@);
                done = done.push(s@);
            }
        }
        if let Some(s) = &self.postal_code {
            if !first {
                out.append(", ");
            }
            out.append(s.as_str());
            first = false;
            proof {
                lemma_join_push(done, sep, s@);
                done = done.push(s@);
            }
        }
        if let Some(s) = &self.country {
            if !first {
                out.append(", ");
            }
            out.append(s.as_str());
            first = false;
            proof {
                lemma_join_push(done, sep, s@);
                done = done.push(s@);
            }
        }
        proof {
            assert(done =~= address_parts(*self));
        }
        out
    }
}

impl AddressParams {
    /// The wire rendering of this input: a free-form string unchanged, a
    /// structured address through [`AddressInput::fmt_string`].
    pub fn render(&self) -> (r: String)
        ensures
            r@ == spec_rendered(*self),
    {
        match self {
            AddressParams::Freeform(s) => s.clone(),
            AddressParams::Structured(a) => a.fmt_string(),
        }
    }
}

impl Coordinates {
    /// Renders the pair as `"{lat},{lng}"`, both at the full precision the
    /// caller supplied.
    pub fn fmt_string(&self) -> (r: String)
        ensures
            r@ == spec_coords_rendered(*self),
    {
        let mut out = self.latitude.clone();
        out.append(",");
        out.append(self.longitude.as_str());
        out
    }
}

} // verus!
