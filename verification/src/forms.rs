//! What a gathered candidate looks like when it is sent.

use crate::json::{decimal, law_decimal_reads_back, lemma_regrouped};
use crate::signal::{
    candidate_attribute, candidate_init_of, IceCandidateInitView, IceCandidateType,
    IceCandidateView, IceProtocol,
};
use vstd::prelude::*;

verus! {

/// The words of a line, cut at every space.
pub open spec fn fields(line: Seq<char>) -> Seq<Seq<char>>
    decreases line.len(),
{
    if line.len() == 0 {
        seq![Seq::empty()]
    } else {
        let rest = fields(line.drop_first());
        if line.first() == ' ' {
            seq![Seq::empty()] + rest
        } else {
            rest.update(0, seq![line.first()] + rest[0])
        }
    }
}

proof fn lemma_one_field(word: Seq<char>)
    requires
        !word.contains(' '),
    ensures
        fields(word) == seq![word],
    decreases word.len(),
{
    if word.len() > 0 {
        let rest = word.drop_first();
        assert forall|i: int| 0 <= i < rest.len() implies rest[i] != ' ' by {
            assert(word[i + 1] == rest[i]);
        }
        lemma_one_field(rest);
        assert(word[0] != ' ');
        assert(seq![word.first()] + rest =~= word);
        assert(fields(word) =~= seq![word]);
    } else {
        assert(word =~= Seq::empty());
    }
}

proof fn lemma_last_field(line: Seq<char>, word: Seq<char>)
    requires
        !word.contains(' '),
    ensures
        fields(line).len() > 0,
        fields(line + seq![' '] + word) == fields(line).push(word),
    decreases line.len(),
{
    let whole = line + seq![' '] + word;
    if line.len() == 0 {
        assert(whole.drop_first() =~= word);
        lemma_one_field(word);
        assert(fields(whole) =~= fields(line).push(word));
    } else {
        let rest = line.drop_first();
        lemma_last_field(rest, word);
        assert(whole.drop_first() =~= rest + seq![' '] + word);
        assert(whole.first() == line.first());
        assert(fields(whole) =~= fields(line).push(word));
    }
}

proof fn lemma_next_field(line: Seq<char>, word: Seq<char>)
    requires
        !word.contains(' '),
    ensures
        fields(line + " "@ + word) == fields(line).push(word),
{
    reveal_strlit(" ");
    assert(" "@ =~= seq![' ']);
    lemma_last_field(line, word);
}

proof fn lemma_number_is_a_word(n: nat)
    ensures
        !decimal(n).contains(' '),
{
    law_decimal_reads_back(n);
}

proof fn lemma_words()
    ensures
        !"udp"@.contains(' '),
        !"tcp"@.contains(' '),
        !"typ"@.contains(' '),
        !"host"@.contains(' '),
        !"srflx"@.contains(' '),
        !"prflx"@.contains(' '),
        !"relay"@.contains(' '),
        !"raddr"@.contains(' '),
        !"rport"@.contains(' '),
{
    reveal_strlit("udp");
    reveal_strlit("tcp");
    reveal_strlit("typ");
    reveal_strlit("host");
    reveal_strlit("srflx");
    reveal_strlit("prflx");
    reveal_strlit("relay");
    reveal_strlit("raddr");
    reveal_strlit("rport");
}

/// The line up to the type, with all that comes before it in front.
proof fn lemma_first_fields(head: Seq<char>, c: IceCandidateView)
    requires
        !head.contains(' '),
        !c.address.contains(' '),
        c.typ !is Unspecified,
    ensures
        ({
            let line = " "@ + decimal(c.component as nat) + " "@ + c.sent_transport() + " "@
                + decimal(c.sent_priority()) + " "@ + c.address + " "@ + decimal(c.port as nat)
                + " typ "@ + c.typ.word();
            fields(head + line) == seq![
                head,
                decimal(c.component as nat),
                c.sent_transport(),
                decimal(c.sent_priority()),
                c.address,
                decimal(c.port as nat),
                "typ"@,
                c.typ.word(),
            ]
        }),
{
    let component = decimal(c.component as nat);
    let transport = c.sent_transport();
    let priority = decimal(c.sent_priority());
    let port = decimal(c.port as nat);
    let typ = c.typ.word();
    let space = " "@;
    lemma_words();
    lemma_number_is_a_word(c.component as nat);
    lemma_number_is_a_word(c.sent_priority());
    lemma_number_is_a_word(c.port as nat);
    let t1 = space + component;
    let t2 = t1 + space + transport;
    let t3 = t2 + space + priority;
    let t4 = t3 + space + c.address;
    let t5 = t4 + space + port;
    let t6 = t5 + space + "typ"@;
    let t7 = t6 + space + typ;
    lemma_one_field(head);
    lemma_regrouped(head, space, component);
    lemma_next_field(head, component);
    lemma_regrouped(head, t1, space);
    lemma_regrouped(head, t1 + space, transport);
    lemma_next_field(head + t1, transport);
    lemma_regrouped(head, t2, space);
    lemma_regrouped(head, t2 + space, priority);
    lemma_next_field(head + t2, priority);
    lemma_regrouped(head, t3, space);
    lemma_regrouped(head, t3 + space, c.address);
    lemma_next_field(head + t3, c.address);
    lemma_regrouped(head, t4, space);
    lemma_regrouped(head, t4 + space, port);
    lemma_next_field(head + t4, port);
    lemma_regrouped(head, t5, space);
    lemma_regrouped(head, t5 + space, "typ"@);
    lemma_next_field(head + t5, "typ"@);
    lemma_regrouped(head, t6, space);
    lemma_regrouped(head, t6 + space, typ);
    lemma_next_field(head + t6, typ);
    assert(" typ "@ =~= space + "typ"@ + space) by {
        reveal_strlit(" typ ");
        reveal_strlit(" ");
        reveal_strlit("typ");
    }
    lemma_regrouped(t5, space, "typ"@);
    lemma_regrouped(t5, space + "typ"@, space);
    assert(t5 + " typ "@ + typ == t7);
    assert(fields(head + t7) =~= seq![
        head,
        component,
        transport,
        priority,
        c.address,
        port,
        "typ"@,
        typ,
    ]);
}

proof fn lemma_related_fields(line: Seq<char>, address: Seq<char>, port: nat)
    requires
        !address.contains(' '),
    ensures
        fields(line + " raddr "@ + address + " rport "@ + decimal(port)) == fields(line) + seq![
            "raddr"@,
            address,
            "rport"@,
            decimal(port),
        ],
{
    let space = " "@;
    lemma_words();
    lemma_number_is_a_word(port);
    lemma_next_field(line, "raddr"@);
    let l1 = line + space + "raddr"@;
    lemma_next_field(l1, address);
    let l2 = l1 + space + address;
    lemma_next_field(l2, "rport"@);
    let l3 = l2 + space + "rport"@;
    lemma_next_field(l3, decimal(port));
    assert(" raddr "@ =~= space + "raddr"@ + space) by {
        reveal_strlit(" raddr ");
        reveal_strlit(" ");
        reveal_strlit("raddr");
    }
    assert(" rport "@ =~= space + "rport"@ + space) by {
        reveal_strlit(" rport ");
        reveal_strlit(" ");
        reveal_strlit("rport");
    }
    lemma_regrouped(line, space, "raddr"@);
    lemma_regrouped(line, space + "raddr"@, space);
    lemma_regrouped(l2, space, "rport"@);
    lemma_regrouped(l2, space + "rport"@, space);
    assert(fields(line + " raddr "@ + address + " rport "@ + decimal(port)) =~= fields(line)
        + seq!["raddr"@, address, "rport"@, decimal(port)]);
}

/// The line for a gathered candidate carries the candidate's own values, in full: cut at the spaces
/// it is the foundation behind `candidate:`, the component, the transport, the priority, the
/// address, the port, the word `typ` and the type; for all but a host, the related address and port
/// follow, each behind its word. Values that hold spaces themselves cannot be told apart like that.
pub proof fn law_candidate_fields(c: IceCandidateView, init: IceCandidateInitView)
    requires
        candidate_init_of(c) == Some(init),
        c.foundation.len() > 0,
        !c.foundation.contains(' '),
        !c.address.contains(' '),
        !c.related_address.contains(' '),
    ensures
        ({
            let local_name = c.typ is Host && ".local"@.is_suffix_of(c.address);
            let f = fields(init.candidate);
            &&& f.len() == (if c.typ is Host {
                8int
            } else {
                12int
            })
            &&& f[0] == "candidate:"@ + c.foundation
            &&& f[1] == decimal(c.component as nat)
            &&& f[2] == (if c.protocol is Tcp && !local_name {
                "tcp"@
            } else {
                "udp"@
            })
            &&& c.priority != 0 ==> f[3] == decimal(c.priority as nat)
            &&& c.priority == 0 ==> f[3] == decimal(c.sent_priority())
            &&& f[4] == c.address
            &&& f[5] == decimal(c.port as nat)
            &&& f[6] == "typ"@
            &&& f[7] == (match c.typ {
                IceCandidateType::Host => "host"@,
                IceCandidateType::Srflx => "srflx"@,
                IceCandidateType::Prflx => "prflx"@,
                IceCandidateType::Relay => "relay"@,
                IceCandidateType::Unspecified => Seq::empty(),
            })
            &&& c.typ !is Host ==> {
                &&& f[8] == "raddr"@
                &&& f[9] == c.related_address
                &&& f[10] == "rport"@
                &&& f[11] == decimal(c.related_port as nat)
            }
        }),
        init.sdp_mid == Some(""@),
        init.sdp_mline_index == Some(0u16),
        init.username_fragment is None,
{
    let head = "candidate:"@ + c.foundation;
    assert(!head.contains(' ')) by {
        reveal_strlit("candidate:");
        assert forall|i: int| 0 <= i < head.len() implies head[i] != ' ' by {
            if i >= 10 {
                assert(head[i] == c.foundation[i - 10]);
            }
        }
    }
    lemma_first_fields(head, c);
    let line = " "@ + decimal(c.component as nat) + " "@ + c.sent_transport() + " "@ + decimal(
        c.sent_priority(),
    ) + " "@ + c.address + " "@ + decimal(c.port as nat) + " typ "@ + c.typ.word();
    if c.typ !is Host {
        lemma_related_fields(head + line, c.related_address, c.related_port as nat);
        let r1 = line + " raddr "@;
        let r2 = r1 + c.related_address;
        let r3 = r2 + " rport "@;
        lemma_regrouped(head, line, " raddr "@);
        lemma_regrouped(head, r1, c.related_address);
        lemma_regrouped(head, r2, " rport "@);
        lemma_regrouped(head, r3, decimal(c.related_port as nat));
    }
}

/// Whatever its values hold, the line for a gathered candidate ends with its own address, its own
/// port and all that follows them.
pub proof fn law_candidate_names_its_address(c: IceCandidateView, init: IceCandidateInitView)
    requires
        candidate_init_of(c) == Some(init),
    ensures
        c.typ is Host ==> (" "@ + c.address + " "@ + decimal(c.port as nat)
            + " typ host"@).is_suffix_of(init.candidate),
        c.typ !is Host ==> exists|typ: Seq<char>|
            (typ == "srflx"@ || typ == "prflx"@ || typ == "relay"@) && (#[trigger] (" "@ + c.address
                + " "@ + decimal(c.port as nat) + " typ "@ + typ + " raddr "@ + c.related_address
                + " rport "@ + decimal(c.related_port as nat))).is_suffix_of(init.candidate),
{
    let end = " "@ + c.address + " "@ + decimal(c.port as nat) + " typ "@ + c.typ.word();
    let start = " "@ + decimal(c.component as nat) + " "@ + c.sent_transport() + " "@ + decimal(
        c.sent_priority(),
    );
    let x1 = " "@ + c.address;
    let x2 = x1 + " "@;
    let x3 = x2 + decimal(c.port as nat);
    let x4 = x3 + " typ "@;
    lemma_regrouped(start, " "@, c.address);
    lemma_regrouped(start, x1, " "@);
    lemma_regrouped(start, x2, decimal(c.port as nat));
    lemma_regrouped(start, x3, " typ "@);
    lemma_regrouped(start, x4, c.typ.word());
    let behind = c.line_behind_foundation();
    let front = init.candidate.take(init.candidate.len() - behind.len());
    assert(init.candidate =~= front + behind);
    if c.typ is Host {
        assert(behind == start + end);
        assert(" typ "@ + "host"@ =~= " typ host"@) by {
            reveal_strlit(" typ ");
            reveal_strlit("host");
            reveal_strlit(" typ host");
        }
        lemma_regrouped(x3, " typ "@, "host"@);
        lemma_suffix(front, start, end);
    } else {
        let y1 = end + " raddr "@;
        let y2 = y1 + c.related_address;
        let y3 = y2 + " rport "@;
        let y4 = y3 + decimal(c.related_port as nat);
        lemma_regrouped(start, end, " raddr "@);
        lemma_regrouped(start, y1, c.related_address);
        lemma_regrouped(start, y2, " rport "@);
        lemma_regrouped(start, y3, decimal(c.related_port as nat));
        assert(behind == start + y4);
        lemma_suffix(front, start, y4);
    }
}

proof fn lemma_suffix(a: Seq<char>, b: Seq<char>, c: Seq<char>)
    ensures
        c.is_suffix_of(a + (b + c)),
{
    let all = a + (b + c);
    assert(all.subrange(all.len() - c.len(), all.len() as int) =~= c);
}

/// Two gathered candidates that are sent in the same form have the same foundation, component,
/// address, port and type, and for all but a host the same related address and port. With a
/// priority of their own, they also have the same priority.
pub proof fn law_different_candidates_look_different(a: IceCandidateView, b: IceCandidateView)
    requires
        candidate_init_of(a) is Some,
        candidate_init_of(a) == candidate_init_of(b),
        a.foundation.len() > 0 && b.foundation.len() > 0,
        !a.foundation.contains(' ') && !b.foundation.contains(' '),
        !a.address.contains(' ') && !b.address.contains(' '),
        !a.related_address.contains(' ') && !b.related_address.contains(' '),
    ensures
        a.foundation == b.foundation,
        a.component == b.component,
        a.address == b.address,
        a.port == b.port,
        a.typ == b.typ,
        a.priority != 0 && b.priority != 0 ==> a.priority == b.priority,
        a.typ !is Host ==> a.related_address == b.related_address && a.related_port
            == b.related_port,
        a.protocol is Tcp && b.protocol is Udp ==> a.typ is Host && ".local"@.is_suffix_of(
            a.address,
        ),
{
    let init = candidate_init_of(a)->0;
    law_candidate_fields(a, init);
    law_candidate_fields(b, init);
    let head = "candidate:"@.len() as int;
    assert(a.foundation =~= ("candidate:"@ + a.foundation).skip(head));
    assert(b.foundation =~= ("candidate:"@ + b.foundation).skip(head));
    law_decimal_reads_back(a.component as nat);
    law_decimal_reads_back(b.component as nat);
    law_decimal_reads_back(a.port as nat);
    law_decimal_reads_back(b.port as nat);
    law_decimal_reads_back(a.priority as nat);
    law_decimal_reads_back(b.priority as nat);
    law_decimal_reads_back(a.related_port as nat);
    law_decimal_reads_back(b.related_port as nat);
    reveal_strlit("udp");
    reveal_strlit("tcp");
    reveal_strlit("host");
    reveal_strlit("srflx");
    reveal_strlit("prflx");
    reveal_strlit("relay");
    assert("host"@[0] == 'h' && "srflx"@[0] == 's' && "prflx"@[0] == 'p' && "relay"@[0] == 'r');
    assert("udp"@[0] == 'u' && "tcp"@[0] == 't');
}

/// A candidate without a type has no form. A host that goes by a local name always has one; every
/// other candidate needs a transport, and beyond that it has one where the `webrtc` crate makes a
/// line from these very values.
pub proof fn law_which_candidates_have_a_form(c: IceCandidateView)
    ensures
        c.typ is Unspecified ==> candidate_init_of(c) is None,
        c.typ is Host && ".local"@.is_suffix_of(c.address) ==> candidate_init_of(c) is Some,
        c.typ !is Unspecified && !(c.typ is Host && ".local"@.is_suffix_of(c.address)) ==> (
        candidate_init_of(c) is Some <==> c.protocol !is Unspecified && candidate_attribute(
            c.foundation,
            c.component,
            match c.protocol {
                IceProtocol::Udp => "udp"@,
                IceProtocol::Tcp => "tcp"@,
                IceProtocol::Unspecified => "Unspecified"@,
            },
            c.priority,
            c.address,
            c.port,
            match c.typ {
                IceCandidateType::Host => "host"@,
                IceCandidateType::Srflx => "srflx"@,
                IceCandidateType::Prflx => "prflx"@,
                IceCandidateType::Relay => "relay"@,
                IceCandidateType::Unspecified => "Unspecified"@,
            },
            c.related_address,
            c.related_port,
        ) is Some),
{
}

/// Every candidate can be asked for its form, but for one that has no priority of its own and a
/// component above 256: none can be derived for it.
pub proof fn law_which_candidates_have_a_priority(c: IceCandidateView)
    ensures
        c.has_priority() <==> !(c.priority == 0 && c.component > 256),
{
}

/// A candidate without a priority of its own is sent with one that puts hosts first, then peer
/// reflexive candidates, then server reflexive ones and relays last, and UDP before TCP.
pub proof fn law_derived_priority(a: IceCandidateView)
    requires
        a.priority == 0,
        a.component <= 256,
        a.typ !is Unspecified,
    ensures
        ({
            let rank: nat = match a.typ {
                IceCandidateType::Host => 126,
                IceCandidateType::Prflx => 110,
                IceCandidateType::Srflx => 100,
                _ => 0,
            };
            let tcp = a.protocol is Tcp && !(a.typ is Host && ".local"@.is_suffix_of(a.address));
            a.sent_priority() == rank * 16777216 + (if tcp {
                2097152int
            } else {
                16777216int
            }) - a.component
        }),
{
    reveal_strlit("udp");
    reveal_strlit("tcp");
    assert("udp"@[0] == 'u' && "tcp"@[0] == 't');
}

} // verus!
