//! The Feature (`FEAT`) command: lists the protocol extensions on offer.

use vstd::prelude::*;
use vstd::string::*;

use crate::reply::{lines_view, Reply, ReplyCode};
use crate::text_order::{lemma_sorted_unique, sort_texts, texts_sorted};

verus! {

/// The bit of a storage backend's feature set that says it can restart
/// transfers.
pub const FEATURE_RESTART: u32 = 1;

/// The storage backend's feature set includes restarting transfers.
pub open spec fn restart_supported(storage_features: u32) -> bool {
    storage_features & FEATURE_RESTART != 0
}

/// The extension tokens on offer, in no particular order.
pub open spec fn feature_tokens(tls_configured: bool, restart: bool) -> Seq<Seq<char>> {
    seq![
        " SIZE"@,
        " MDTM"@,
        " MLST modify*;perm*;size*;type*;unique*;UNIX.group*;UNIX.mode*;UNIX.owner*;"@,
        " UTF8"@,
    ] + (if tls_configured {
        seq![" AUTH TLS"@, " PBSZ"@, " PROT"@]
    } else {
        Seq::empty()
    }) + (if restart {
        seq![" REST STREAM"@]
    } else {
        Seq::empty()
    })
}

/// `text` is the listing: a header, the tokens sorted, and a closing line.
pub open spec fn is_feat_listing(text: Seq<Seq<char>>, tls_configured: bool, restart: bool) -> bool {
    &&& text.len() >= 2
    &&& text[0] == "Extensions supported:"@
    &&& text.last() == "END"@
    &&& texts_sorted(text.subrange(1, text.len() - 1))
    &&& text.subrange(1, text.len() - 1).to_multiset() == feature_tokens(
        tls_configured,
        restart,
    ).to_multiset()
}

/// The listing is fixed by the configuration: two listings for the same TLS
/// setting and restart support are the same, line for line.
pub proof fn lemma_feat_listing_deterministic(
    a: Seq<Seq<char>>,
    b: Seq<Seq<char>>,
    tls_configured: bool,
    restart: bool,
)
    requires
        is_feat_listing(a, tls_configured, restart),
        is_feat_listing(b, tls_configured, restart),
    ensures
        a == b,
{
    let ma = a.subrange(1, a.len() - 1);
    let mb = b.subrange(1, b.len() - 1);
    lemma_sorted_unique(ma, mb);
    a.subrange(1, a.len() - 1).to_multiset_ensures();
    b.subrange(1, b.len() - 1).to_multiset_ensures();
    assert(a.len() == b.len());
    assert(a =~= seq![a[0]] + ma + seq![a.last()]);
    assert(b =~= seq![b[0]] + mb + seq![b.last()]);
}

proof fn lemma_listing_contains(text: Seq<Seq<char>>, tokens: Seq<Seq<char>>, x: Seq<char>)
    requires
        text.len() >= 2,
        x != text[0],
        x != text.last(),
        text.subrange(1, text.len() - 1).to_multiset() == tokens.to_multiset(),
    ensures
        text.contains(x) <==> tokens.contains(x),
{
    let mid = text.subrange(1, text.len() - 1);
    mid.to_multiset_ensures();
    tokens.to_multiset_ensures();
    assert(mid.to_multiset().count(x) == tokens.to_multiset().count(x));
    if text.contains(x) {
        let i = choose|i: int| 0 <= i < text.len() && text[i] == x;
        assert(mid[i - 1] == x);
    }
    if mid.contains(x) {
        let i = choose|i: int| 0 <= i < mid.len() && mid[i] == x;
        assert(text[i + 1] == x);
    }
}

/// The TLS tokens are listed exactly when TLS is configured.
pub proof fn lemma_feat_tls_tokens(text: Seq<Seq<char>>, tls_configured: bool, restart: bool)
    requires
        is_feat_listing(text, tls_configured, restart),
    ensures
        text.contains(" AUTH TLS"@) == tls_configured,
        text.contains(" PBSZ"@) == tls_configured,
        text.contains(" PROT"@) == tls_configured,
{
    reveal_strlit("Extensions supported:");
    reveal_strlit("END");
    reveal_strlit(" SIZE");
    reveal_strlit(" MDTM");
    reveal_strlit(" MLST modify*;perm*;size*;type*;unique*;UNIX.group*;UNIX.mode*;UNIX.owner*;");
    reveal_strlit(" UTF8");
    reveal_strlit(" AUTH TLS");
    reveal_strlit(" PBSZ");
    reveal_strlit(" PROT");
    reveal_strlit(" REST STREAM");
    let tokens = feature_tokens(tls_configured, restart);
    assert(text[0].len() == 21 && text.last().len() == 3);
    assert(" AUTH TLS"@.len() == 9 && " PBSZ"@.len() == 5 && " PROT"@.len() == 5);
    assert(" PBSZ"@[1] != " SIZE"@[1]);
    assert(" PBSZ"@[1] != " MDTM"@[1]);
    assert(" PROT"@[1] != " SIZE"@[1]);
    assert(" PROT"@[1] != " MDTM"@[1]);
    assert(" PBSZ"@[1] != " UTF8"@[1]);
    assert(" PROT"@[1] != " UTF8"@[1]);
    lemma_listing_contains(text, tokens, " AUTH TLS"@);
    lemma_listing_contains(text, tokens, " PBSZ"@);
    lemma_listing_contains(text, tokens, " PROT"@);
    if tls_configured {
        assert(tokens[4] == " AUTH TLS"@);
        assert(tokens[5] == " PBSZ"@);
        assert(tokens[6] == " PROT"@);
    } else {
        assert(forall|i: int| 0 <= i < tokens.len() ==> tokens[i].len() != 9);
        assert(forall|i: int| 0 <= i < tokens.len() ==> #[trigger] tokens[i] != " PBSZ"@);
        assert(forall|i: int| 0 <= i < tokens.len() ==> #[trigger] tokens[i] != " PROT"@);
    }
}

pub struct Feat;

impl Feat {
    /// The listing, as a multi-line system status reply.
    pub fn execute(&self, tls_configured: bool, storage_features: u32) -> (r: Reply)
        ensures
            r matches Reply::MultiLine { code, lines } && code == ReplyCode::SystemStatus
                && is_feat_listing(
                lines_view(lines@),
                tls_configured,
                restart_supported(storage_features),
            ),
    {
        let mut tokens: Vec<String> = Vec::new();
        tokens.push(" SIZE".to_owned());
        tokens.push(" MDTM".to_owned());
        tokens.push(
            " MLST modify*;perm*;size*;type*;unique*;UNIX.group*;UNIX.mode*;UNIX.owner*;".to_owned(),
        );
        tokens.push(" UTF8".to_owned());
        if tls_configured {
            tokens.push(" AUTH TLS".to_owned());
            tokens.push(" PBSZ".to_owned());
            tokens.push(" PROT".to_owned());
        }
        if storage_features & FEATURE_RESTART != 0 {
            tokens.push(" REST STREAM".to_owned());
        }
        proof {
            assert(lines_view(tokens@) =~= feature_tokens(
                tls_configured,
                restart_supported(storage_features),
            ));
        }
        let sorted = sort_texts(tokens);
        let mut lines: Vec<String> = Vec::new();
        lines.push("Extensions supported:".to_owned());
        let mut i: usize = 0;
        while i < sorted.len()
            invariant
                i <= sorted@.len(),
                lines@.len() == i + 1,
                lines@[0]@ == "Extensions supported:"@,
                forall|k: int| 0 <= k < i ==> #[trigger] lines@[k + 1]@ == sorted@[k]@,
            decreases sorted@.len() - i,
        {
            lines.push(sorted[i].clone());
            i = i + 1;
        }
        lines.push("END".to_owned());
        proof {
            let lv = lines_view(lines@);
            assert(lv.subrange(1, lv.len() - 1) =~= lines_view(sorted@));
        }
        Reply::new_multiline(ReplyCode::SystemStatus, lines)
    }
}

} // verus!
