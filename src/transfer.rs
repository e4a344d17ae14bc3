use vstd::prelude::*;
use vstd::string::StringExecFns;

use crate::status::TransferType;

verus! {

/// Bytes read from the control channel at a time.
pub const CONTROL_READ_BYTES: usize = 1024;

/// Bytes read from a file at a time when it is retrieved; each chunk is encoded on its own.
pub const RETRIEVE_CHUNK_BYTES: usize = 1024;

/// Bytes read from the data channel at a time when a file is stored.
pub const STORE_CHUNK_BYTES: usize = 8192;

/// `s` with each line feed written as carriage return and line feed.
pub open spec fn crlf(s: Seq<u8>) -> Seq<u8>
    decreases s.len(),
{
    if s.len() == 0 {
        Seq::empty()
    } else if s.last() == 10 {
        crlf(s.drop_last()) + seq![13u8, 10u8]
    } else {
        crlf(s.drop_last()).push(s.last())
    }
}

/// How many line feeds `s` holds.
pub open spec fn line_feeds(s: Seq<u8>) -> nat
    decreases s.len(),
{
    if s.len() == 0 {
        0
    } else {
        line_feeds(s.drop_last()) + if s.last() == 10 {
            1nat
        } else {
            0nat
        }
    }
}

/// What a chunk of a file becomes on the data channel in a given transfer type: text has its
/// line feeds widened, binary data is sent as it is, and EBCDIC cannot be sent.
pub open spec fn encoded(t: TransferType, chunk: Seq<u8>) -> Option<Seq<u8>> {
    match t {
        TransferType::Ascii => Some(crlf(chunk)),
        TransferType::Binary => Some(chunk),
        TransferType::EBCDIC => None,
    }
}

/// Encodes one chunk read from a file for the data channel. Each chunk is encoded on its own.
pub fn encode_chunk(t: TransferType, chunk: &[u8]) -> (r: Option<Vec<u8>>)
    ensures
        match r {
            Some(out) => encoded(t, chunk@) == Some(out@),
            None => encoded(t, chunk@) is None,
        },
{
    match t {
        TransferType::Ascii => {
            let mut out: Vec<u8> = Vec::new();
            let mut i: usize = 0;
            while i < chunk.len()
                invariant
                    i <= chunk.len(),
                    out@ == crlf(chunk@.take(i as int)),
                decreases chunk.len() - i,
            {
                assert(chunk@.take(i + 1).drop_last() =~= chunk@.take(i as int));
                if chunk[i] == 10 {
                    out.push(13);
                    out.push(10);
                    assert(out@ =~= crlf(chunk@.take(i as int)) + seq![13u8, 10u8]);
                } else {
                    out.push(chunk[i]);
                }
                i = i + 1;
            }
            assert(chunk@.take(chunk.len() as int) =~= chunk@);
            Some(out)
        },
        TransferType::Binary => {
            let mut out: Vec<u8> = Vec::new();
            let mut i: usize = 0;
            while i < chunk.len()
                invariant
                    i <= chunk.len(),
                    out@ == chunk@.take(i as int),
                decreases chunk.len() - i,
            {
                out.push(chunk[i]);
                assert(out@ =~= chunk@.take(i + 1));
                i = i + 1;
            }
            assert(chunk@.take(chunk.len() as int) =~= chunk@);
            Some(out)
        },
        TransferType::EBCDIC => None,
    }
}

/// Widening line feeds adds one byte for each line feed.
pub proof fn lemma_crlf_len(s: Seq<u8>)
    ensures
        crlf(s).len() == s.len() + line_feeds(s),
    decreases s.len(),
{
    if s.len() > 0 {
        lemma_crlf_len(s.drop_last());
    }
}

/// Widening line feeds chunk by chunk gives what widening the whole gives.
pub proof fn lemma_crlf_append(a: Seq<u8>, b: Seq<u8>)
    ensures
        crlf(a + b) == crlf(a) + crlf(b),
    decreases b.len(),
{
    if b.len() == 0 {
        assert(a + b =~= a);
        assert(crlf(a) + crlf(b) =~= crlf(a));
    } else {
        assert((a + b).drop_last() =~= a + b.drop_last());
        assert((a + b).last() == b.last());
        lemma_crlf_append(a, b.drop_last());
        if b.last() == 10 {
            assert(crlf(a + b) =~= crlf(a) + crlf(b));
        } else {
            assert(crlf(a + b) =~= crlf(a) + crlf(b));
        }
    }
}

/// In widened text every line feed follows a carriage return.
pub proof fn lemma_crlf_pairs(s: Seq<u8>)
    ensures
        forall|i: int| 0 <= i < crlf(s).len() && #[trigger] crlf(s)[i] == 10 ==> i > 0 && crlf(s)[i - 1]
            == 13,
    decreases s.len(),
{
    if s.len() > 0 {
        let p = crlf(s.drop_last());
        lemma_crlf_pairs(s.drop_last());
        assert forall|i: int| 0 <= i < crlf(s).len() && #[trigger] crlf(s)[i] == 10 implies i > 0
            && crlf(s)[i - 1] == 13 by {
            if i < p.len() {
                assert(crlf(s)[i] == p[i]);
                assert(crlf(s)[i - 1] == p[i - 1]);
            }
        }
    }
}

/// Text made of lines that each end in a line feed, sent in ASCII type: the output is one byte
/// longer for each line feed, every line feed in it follows a carriage return so that its last
/// line ends in CR LF, and sending it in chunks gives the same bytes as sending it whole.
pub proof fn lemma_ascii_lines(s: Seq<u8>, split: int)
    requires
        s.len() > 0 ==> s.last() == 10,
        0 <= split <= s.len(),
    ensures
        crlf(s).len() == s.len() + line_feeds(s),
        forall|i: int| 0 <= i < crlf(s).len() && #[trigger] crlf(s)[i] == 10 ==> i > 0 && crlf(s)[i - 1]
            == 13,
        s.len() > 0 ==> crlf(s).len() >= 2 && crlf(s).last() == 10 && crlf(s)[crlf(s).len() - 2]
            == 13,
        crlf(s) == crlf(s.take(split)) + crlf(s.skip(split)),
        encoded(TransferType::Binary, s) == Some(s),
{
    lemma_crlf_len(s);
    lemma_crlf_pairs(s);
    lemma_crlf_append(s.take(split), s.skip(split));
    assert(s.take(split) + s.skip(split) =~= s);
}

/// The lines of a directory listing: each name followed by CR LF.
pub open spec fn listing(names: Seq<Seq<char>>) -> Seq<char>
    decreases names.len(),
{
    if names.len() == 0 {
        Seq::empty()
    } else {
        listing(names.drop_last()) + names.last() + "\r\n"@
    }
}

/// Writes the listing of a directory's entries for the data channel.
pub fn format_listing(names: &Vec<String>) -> (r: String)
    ensures
        r@ == listing(names@.map_values(|n: String| n@)),
{
    let mut out = String::new();
    let mut i: usize = 0;
    while i < names.len()
        invariant
            i <= names.len(),
            out@ == listing(names@.take(i as int).map_values(|n: String| n@)),
        decreases names.len() - i,
    {
        assert(names@.take(i + 1).map_values(|n: String| n@).drop_last() =~= names@.take(
            i as int,
        ).map_values(|n: String| n@));
        out.append(names[i].as_str());
        out.append("\r\n");
        i = i + 1;
    }
    assert(names@.take(names.len() as int) =~= names@);
    out
}

} // verus!
