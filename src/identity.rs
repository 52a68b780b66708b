use crate::error::OptionsError;
use crate::layout::StringField;
use crate::options::{stored_text, text_or, text_view, ZDBIndexOptions};
use vstd::prelude::*;
use vstd::string::StringExecFns;

verus! {

/// What the catalog tells about an index and the table it belongs to.
pub struct ResolvedIdentity {
    pub database_name: String,
    pub namespace_name: String,
    pub table_name: String,
    pub index_name: String,
    pub index_id: u32,
    pub namespace_id: u32,
    pub database_id: u32,
    pub table_id: u32,
}

pub open spec fn digit_char(d: nat) -> char {
    if d == 0 {
        '0'
    } else if d == 1 {
        '1'
    } else if d == 2 {
        '2'
    } else if d == 3 {
        '3'
    } else if d == 4 {
        '4'
    } else if d == 5 {
        '5'
    } else if d == 6 {
        '6'
    } else if d == 7 {
        '7'
    } else if d == 8 {
        '8'
    } else {
        '9'
    }
}

/// The decimal digits of `n`, most significant first, without leading zeros.
pub open spec fn decimal(n: nat) -> Seq<char>
    decreases n,
{
    if n < 10 {
        seq![digit_char(n)]
    } else {
        decimal(n / 10).push(digit_char(n % 10))
    }
}

/// The alias derived from the identity: `database.namespace.table.index-id`.
pub open spec fn derived_alias(id: ResolvedIdentity) -> Seq<char> {
    id.database_name@ + seq!['.'] + id.namespace_name@ + seq!['.'] + id.table_name@ + seq!['.']
        + id.index_name@ + seq!['-'] + decimal(id.index_id as nat)
}

/// The index name derived from the identity, all numeric:
/// `database_id.namespace_id.table_id.index_id`.
pub open spec fn derived_uuid(id: ResolvedIdentity) -> Seq<char> {
    decimal(id.database_id as nat) + seq!['.'] + decimal(id.namespace_id as nat) + seq!['.']
        + decimal(id.table_id as nat) + seq!['.'] + decimal(id.index_id as nat)
}

fn digit_str(d: u32) -> (r: &'static str)
    requires
        d < 10,
    ensures
        r@ == seq![digit_char(d as nat)],
{
    proof {
        reveal_strlit("0");
        reveal_strlit("1");
        reveal_strlit("2");
        reveal_strlit("3");
        reveal_strlit("4");
        reveal_strlit("5");
        reveal_strlit("6");
        reveal_strlit("7");
        reveal_strlit("8");
        reveal_strlit("9");
    }
    match d {
        0 => "0",
        1 => "1",
        2 => "2",
        3 => "3",
        4 => "4",
        5 => "5",
        6 => "6",
        7 => "7",
        8 => "8",
        _ => "9",
    }
}

/// Appends the decimal digits of `n` to `out`.
fn push_decimal(out: &mut String, n: u32)
    ensures
        final(out)@ == old(out)@ + decimal(n as nat),
    decreases n,
{
    if n >= 10 {
        push_decimal(out, n / 10);
    }
    out.append(digit_str(n % 10));
    proof {
        if n >= 10 {
            assert(old(out)@ + decimal((n / 10) as nat) + seq![digit_char((n % 10) as nat)]
                =~= old(out)@ + decimal(n as nat));
        }
    }
}

fn alias_from(id: &ResolvedIdentity) -> (r: String)
    ensures
        r@ == derived_alias(*id),
{
    proof {
        reveal_strlit(".");
        reveal_strlit("-");
    }
    let mut out = String::new();
    out.append(id.database_name.as_str());
    out.append(".");
    out.append(id.namespace_name.as_str());
    out.append(".");
    out.append(id.table_name.as_str());
    out.append(".");
    out.append(id.index_name.as_str());
    out.append("-");
    push_decimal(&mut out, id.index_id);
    assert(out@ =~= derived_alias(*id));
    out
}

fn uuid_from(id: &ResolvedIdentity) -> (r: String)
    ensures
        r@ == derived_uuid(*id),
{
    proof {
        reveal_strlit(".");
    }
    let mut out = String::new();
    push_decimal(&mut out, id.database_id);
    out.append(".");
    push_decimal(&mut out, id.namespace_id);
    out.append(".");
    push_decimal(&mut out, id.table_id);
    out.append(".");
    push_decimal(&mut out, id.index_id);
    assert(out@ =~= derived_uuid(*id));
    out
}

impl ZDBIndexOptions {
    /// The alias the index belongs to: the stored alias verbatim when set,
    /// else the one derived from `id`.
    pub fn alias(&self, id: &ResolvedIdentity) -> (r: Result<String, OptionsError>)
        ensures
            text_view(r) == text_or(stored_text(self@, StringField::Alias), derived_alias(*id)),
    {
        match self.get_str(StringField::Alias) {
            Ok(Some(s)) => Ok(s),
            Ok(None) => Ok(alias_from(id)),
            Err(e) => Err(e),
        }
    }

    /// The external index name: the stored uuid verbatim when set, else the
    /// numeric one derived from `id`.
    pub fn uuid(&self, id: &ResolvedIdentity) -> (r: Result<String, OptionsError>)
        ensures
            text_view(r) == text_or(stored_text(self@, StringField::Uuid), derived_uuid(*id)),
    {
        match self.get_str(StringField::Uuid) {
            Ok(Some(s)) => Ok(s),
            Ok(None) => Ok(uuid_from(id)),
            Err(e) => Err(e),
        }
    }

    /// The canonical external index name, which is the uuid.
    pub fn index_name(&self, id: &ResolvedIdentity) -> (r: Result<String, OptionsError>)
        ensures
            text_view(r) == text_or(stored_text(self@, StringField::Uuid), derived_uuid(*id)),
    {
        self.uuid(id)
    }
}

} // verus!
