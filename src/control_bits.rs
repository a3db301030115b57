//! The six TCP control bits.
use vstd::prelude::*;
use vstd::string::StringExecFns;

verus! {

/// The control bits of a TCP header, from URG (bit 5) down to FIN (bit 0).
#[derive(Clone, Copy, Debug, PartialEq, Eq, Structural)]
pub struct ControlBits {
    pub urg: bool,
    pub ack: bool,
    pub psh: bool,
    pub rst: bool,
    pub syn: bool,
    pub fin: bool,
}

pub open spec fn bit_value(b: bool, weight: int) -> int {
    if b {
        weight
    } else {
        0
    }
}

impl ControlBits {
    /// The flags that the six-bit value `v` sets.
    pub open spec fn from_bits(v: int) -> ControlBits {
        ControlBits {
            urg: (v / 32) % 2 == 1,
            ack: (v / 16) % 2 == 1,
            psh: (v / 8) % 2 == 1,
            rst: (v / 4) % 2 == 1,
            syn: (v / 2) % 2 == 1,
            fin: v % 2 == 1,
        }
    }

    /// The six-bit value of these flags.
    pub open spec fn bits(self) -> int {
        bit_value(self.urg, 32) + bit_value(self.ack, 16) + bit_value(self.psh, 8) + bit_value(
            self.rst,
            4,
        ) + bit_value(self.syn, 2) + bit_value(self.fin, 1)
    }

    /// The names of the set flags, from URG to FIN, joined by `", "`.
    pub open spec fn short_string(self) -> Seq<char> {
        join_names(self.names())
    }

    /// The names of the set flags, from URG to FIN.
    pub open spec fn names(self) -> Seq<Seq<char>> {
        let n = push_if(Seq::empty(), self.urg, seq!['U', 'R', 'G']);
        let n = push_if(n, self.ack, seq!['A', 'C', 'K']);
        let n = push_if(n, self.psh, seq!['P', 'S', 'H']);
        let n = push_if(n, self.rst, seq!['R', 'S', 'T']);
        let n = push_if(n, self.syn, seq!['S', 'Y', 'N']);
        push_if(n, self.fin, seq!['F', 'I', 'N'])
    }

    /// Decodes the low six bits of `num`: a flag is set when its bit is.
    pub fn parse(num: u8) -> (r: ControlBits)
        ensures
            r == ControlBits::from_bits(num as int),
            r.bits() == num % 64,
    {
        proof {
            lemma_control_bits_of(num);
        }
        ControlBits {
            urg: (num / 32) % 2 == 1,
            ack: (num / 16) % 2 == 1,
            psh: (num / 8) % 2 == 1,
            rst: (num / 4) % 2 == 1,
            syn: (num / 2) % 2 == 1,
            fin: num % 2 == 1,
        }
    }

    /// Encodes the flags as six bits.
    pub fn serialize(&self) -> (r: u8)
        ensures
            r == self.bits(),
            r < 64,
    {
        let mut num: u8 = 0;
        if self.urg {
            num = num + 32;
        }
        if self.ack {
            num = num + 16;
        }
        if self.psh {
            num = num + 8;
        }
        if self.rst {
            num = num + 4;
        }
        if self.syn {
            num = num + 2;
        }
        if self.fin {
            num = num + 1;
        }
        num
    }

    /// SYN alone.
    pub fn get_syn() -> (r: ControlBits)
        ensures
            r == (ControlBits { urg: false, ack: false, psh: false, rst: false, syn: true, fin: false }),
    {
        ControlBits { urg: false, ack: false, psh: false, rst: false, syn: true, fin: false }
    }

    /// SYN and ACK.
    pub fn get_syn_ack() -> (r: ControlBits)
        ensures
            r == (ControlBits { urg: false, ack: true, psh: false, rst: false, syn: true, fin: false }),
    {
        ControlBits { urg: false, ack: true, psh: false, rst: false, syn: true, fin: false }
    }

    /// ACK alone.
    pub fn get_ack() -> (r: ControlBits)
        ensures
            r == (ControlBits { urg: false, ack: true, psh: false, rst: false, syn: false, fin: false }),
    {
        ControlBits { urg: false, ack: true, psh: false, rst: false, syn: false, fin: false }
    }

    /// The names of the set flags, joined by `", "`.
    pub fn to_short_string(&self) -> (r: String)
        ensures
            r@ == self.short_string(),
    {
        let mut names: Vec<&'static str> = Vec::new();
        proof {
            reveal_strlit("URG");
            assert("URG"@ =~= seq!['U', 'R', 'G']);
            reveal_strlit("ACK");
            assert("ACK"@ =~= seq!['A', 'C', 'K']);
            reveal_strlit("PSH");
            assert("PSH"@ =~= seq!['P', 'S', 'H']);
            reveal_strlit("RST");
            assert("RST"@ =~= seq!['R', 'S', 'T']);
            reveal_strlit("SYN");
            assert("SYN"@ =~= seq!['S', 'Y', 'N']);
            reveal_strlit("FIN");
            assert("FIN"@ =~= seq!['F', 'I', 'N']);
        }
        let ghost n0 = names@.map_values(|s: &str| s@);
        assert(n0 =~= Seq::<Seq<char>>::empty());
        if self.urg {
            names.push("URG");
        }
        let ghost n1 = names@.map_values(|s: &str| s@);
        assert(n1 =~= push_if(n0, self.urg, seq!['U', 'R', 'G']));
        if self.ack {
            names.push("ACK");
        }
        let ghost n2 = names@.map_values(|s: &str| s@);
        assert(n2 =~= push_if(n1, self.ack, seq!['A', 'C', 'K']));
        if self.psh {
            names.push("PSH");
        }
        let ghost n3 = names@.map_values(|s: &str| s@);
        assert(n3 =~= push_if(n2, self.psh, seq!['P', 'S', 'H']));
        if self.rst {
            names.push("RST");
        }
        let ghost n4 = names@.map_values(|s: &str| s@);
        assert(n4 =~= push_if(n3, self.rst, seq!['R', 'S', 'T']));
        if self.syn {
            names.push("SYN");
        }
        let ghost n5 = names@.map_values(|s: &str| s@);
        assert(n5 =~= push_if(n4, self.syn, seq!['S', 'Y', 'N']));
        if self.fin {
            names.push("FIN");
        }
        assert(names@.map_values(|s: &str| s@) =~= push_if(n5, self.fin, seq!['F', 'I', 'N']));
        join(&names)
    }
}

/// `s` with `name` added at the end when `b` holds.
pub open spec fn push_if(s: Seq<Seq<char>>, b: bool, name: Seq<char>) -> Seq<Seq<char>> {
    if b {
        s.push(name)
    } else {
        s
    }
}

/// `names` joined by `", "`.
pub open spec fn join_names(names: Seq<Seq<char>>) -> Seq<char>
    decreases names.len(),
{
    if names.len() == 0 {
        Seq::empty()
    } else if names.len() == 1 {
        names[0]
    } else {
        join_names(names.drop_last()) + seq![',', ' '] + names.last()
    }
}

fn join(names: &Vec<&'static str>) -> (r: String)
    ensures
        r@ == join_names(names@.map_values(|s: &str| s@)),
{
    let mut r = String::new();
    let mut i: usize = 0;
    while i < names.len()
        invariant
            0 <= i <= names@.len(),
            r@ == join_names(names@.subrange(0, i as int).map_values(|s: &str| s@)),
        decreases names@.len() - i,
    {
        proof {
            reveal_strlit(", ");
            let pre = names@.subrange(0, i as int).map_values(|s: &str| s@);
            let next = names@.subrange(0, i + 1).map_values(|s: &str| s@);
            assert(next.drop_last() =~= pre);
        }
        if i > 0 {
            r.append(", ");
        }
        r.append(names[i]);
        i = i + 1;
    }
    assert(names@.subrange(0, names@.len() as int) == names@);
    r
}

proof fn lemma_control_bits_of(num: u8)
    ensures
        ControlBits::from_bits(num as int).bits() == num % 64,
{
    assert(((num / 32) % 2) * 32 + ((num / 16) % 2) * 16 + ((num / 8) % 2) * 8 + ((num / 4) % 2)
        * 4 + ((num / 2) % 2) * 2 + num % 2 == num % 64) by (bit_vector);
}

/// Decoding the bits of a set of flags gives the same flags back.
pub proof fn lemma_control_bits_round_trip(c: ControlBits)
    ensures
        0 <= c.bits() < 64,
        ControlBits::from_bits(c.bits()) == c,
{
    let u = bit_value(c.urg, 1) as u8;
    let a = bit_value(c.ack, 1) as u8;
    let p = bit_value(c.psh, 1) as u8;
    let r = bit_value(c.rst, 1) as u8;
    let s = bit_value(c.syn, 1) as u8;
    let f = bit_value(c.fin, 1) as u8;
    assert({
        let v = u * 32 + a * 16 + p * 8 + r * 4 + s * 2 + f;
        &&& (v / 32) % 2 == u
        &&& (v / 16) % 2 == a
        &&& (v / 8) % 2 == p
        &&& (v / 4) % 2 == r
        &&& (v / 2) % 2 == s
        &&& v % 2 == f
    }) by (bit_vector)
        requires
            u < 2,
            a < 2,
            p < 2,
            r < 2,
            s < 2,
            f < 2,
    ;
}

} // verus!
