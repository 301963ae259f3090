//! A resolved color: foreground, background and attributes, with the escape and
//! clear sequences computed once when it is built.

use vstd::prelude::*;
use crate::palette::{
    colors_attr_clear, decimal, push_decimal, spec_attr_clear, CgrcAttrib, LcBackColor, LcLogColor,
};

verus! {

/// `ESC [`, the start of every sequence.
pub open spec fn csi() -> Seq<char> {
    seq!['\u{1b}', '[']
}

/// `;<code>` for each attribute that has an activation code, in order.
pub open spec fn attr_codes_text(attrs: Seq<CgrcAttrib>) -> Seq<char>
    decreases attrs.len(),
{
    if attrs.len() == 0 {
        Seq::empty()
    } else {
        let rest = attr_codes_text(attrs.drop_last());
        match attrs.last().spec_code() {
            Some(c) => rest + seq![';'] + decimal(c as nat),
            None => rest,
        }
    }
}

/// `;<reset code>` for each attribute, in order.
pub open spec fn reset_codes_text(attrs: Seq<CgrcAttrib>) -> Seq<char>
    decreases attrs.len(),
{
    if attrs.len() == 0 {
        Seq::empty()
    } else {
        reset_codes_text(attrs.drop_last()) + seq![';'] + decimal(
            spec_attr_clear(attrs.last()).spec_code() as nat,
        )
    }
}

/// `ESC [ fg ; bg (; attr)* m`
pub open spec fn escape_text(attrs: Seq<CgrcAttrib>, forg: LcLogColor, back: LcBackColor) -> Seq<char> {
    csi() + decimal(forg.spec_code() as nat) + seq![';'] + decimal(back.spec_code() as nat)
        + attr_codes_text(attrs) + seq!['m']
}

/// `ESC [ 39 ; 49 (; reset)* m`
pub open spec fn clear_text(attrs: Seq<CgrcAttrib>) -> Seq<char> {
    csi() + decimal(LcLogColor::LcForgColDefault.spec_code() as nat) + seq![';'] + decimal(
        LcBackColor::LcBackColDefault.spec_code() as nat,
    ) + reset_codes_text(attrs) + seq!['m']
}

#[derive(Debug, Clone)]
pub struct CgrcColorItem {
    pub attrs: Vec<CgrcAttrib>,
    pub forg: LcLogColor,
    pub back: LcBackColor,
    pub escape_seq: String,
    pub clear_seq: String,
}

impl CgrcColorItem {
    /// The two sequences agree with the colors and attributes they were built from.
    pub open spec fn wf(&self) -> bool {
        &&& self.escape_seq@ == escape_text(self.attrs@, self.forg, self.back)
        &&& self.clear_seq@ == clear_text(self.attrs@)
    }

    pub fn new(attrs: Vec<CgrcAttrib>, forg: LcLogColor, back: LcBackColor) -> (r: CgrcColorItem)
        ensures
            r.attrs@ == attrs@,
            r.forg == forg,
            r.back == back,
            r.wf(),
    {
        let escape_seq = CgrcColorItem::build_escape_seq(&attrs, &forg, &back);
        let clear_seq = CgrcColorItem::build_clear_seq(&attrs);
        CgrcColorItem { attrs, forg, back, escape_seq, clear_seq }
    }

    fn start_seq(fg: u8, bg: u8) -> (r: String)
        ensures
            r@ == csi() + decimal(fg as nat) + seq![';'] + decimal(bg as nat),
    {
        let mut seq = String::from_str("\u{1b}[");
        proof {
            reveal_strlit("\u{1b}[");
            reveal_strlit(";");
        }
        push_decimal(&mut seq, fg);
        seq.append(";");
        push_decimal(&mut seq, bg);
        seq
    }

    pub fn build_escape_seq(attrs: &Vec<CgrcAttrib>, forg: &LcLogColor, back: &LcBackColor) -> (r:
        String)
        ensures
            r@ == escape_text(attrs@, *forg, *back),
    {
        let mut seq = CgrcColorItem::start_seq(forg.code(), back.code());
        let ghost start = seq@;
        proof {
            reveal_strlit("m");
        }
        let mut i: usize = 0;
        while i < attrs.len()
            invariant
                i <= attrs.len(),
                seq@ == start + attr_codes_text(attrs@.take(i as int)),
            decreases attrs.len() - i,
        {
            assert(attrs@.take(i + 1).drop_last() == attrs@.take(i as int));
            assert(attrs@.take(i + 1).last() == attrs@[i as int]);
            proof {
                reveal_strlit(";");
            }
            let ghost prev = seq@;
            let ghost t = attrs@.take(i + 1);
            match attrs[i].code() {
                Some(c) => {
                    seq.append(";");
                    push_decimal(&mut seq, c);
                    assert(attr_codes_text(t) == attr_codes_text(t.drop_last()) + seq![';']
                        + decimal(c as nat));
                },
                None => {
                    assert(attr_codes_text(t) == attr_codes_text(t.drop_last()));
                },
            }
            assert(seq@ =~= start + attr_codes_text(attrs@.take(i + 1)));
            i += 1;
        }
        assert(attrs@.take(attrs.len() as int) == attrs@);
        seq.append("m");
        seq
    }

    pub fn build_clear_seq(attrs: &Vec<CgrcAttrib>) -> (r: String)
        ensures
            r@ == clear_text(attrs@),
    {
        let mut seq = CgrcColorItem::start_seq(
            LcLogColor::LcForgColDefault.code(),
            LcBackColor::LcBackColDefault.code(),
        );
        let ghost start = seq@;
        proof {
            reveal_strlit("m");
        }
        let mut i: usize = 0;
        while i < attrs.len()
            invariant
                i <= attrs.len(),
                seq@ == start + reset_codes_text(attrs@.take(i as int)),
            decreases attrs.len() - i,
        {
            assert(attrs@.take(i + 1).drop_last() == attrs@.take(i as int));
            assert(attrs@.take(i + 1).last() == attrs@[i as int]);
            proof {
                reveal_strlit(";");
            }
            let ghost t = attrs@.take(i + 1);
            seq.append(";");
            push_decimal(&mut seq, colors_attr_clear(&attrs[i]).code());
            assert(reset_codes_text(t) == reset_codes_text(t.drop_last()) + seq![';'] + decimal(
                spec_attr_clear(attrs@[i as int]).spec_code() as nat,
            ));
            assert(seq@ =~= start + reset_codes_text(attrs@.take(i + 1)));
            i += 1;
        }
        assert(attrs@.take(attrs.len() as int) == attrs@);
        seq.append("m");
        seq
    }
}

} // verus!
