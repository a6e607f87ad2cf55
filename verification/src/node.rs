//! The node client's computing half: the error taxonomy, the chunking of
//! identifier lists for full-block fetches, and the body of the full-block
//! request. The HTTP requests themselves happen outside this crate.

use vstd::prelude::*;
use vstd::string::StringExecFns;
use crate::encoding::hex_of;
use crate::model::BlockId;

verus! {

/// Why a node operation failed.
#[derive(Debug)]
pub enum Error {
    /// The response did not decode.
    Json(String),
    /// The transport failed.
    Transport(String),
    /// The node answered with an unexpected status.
    Http { code: u16, body: String },
    /// Reading the response failed.
    Io(String),
    /// The node answered, but not with what was asked for.
    UnsuccessfulRequest(String),
    /// A block range came back empty.
    NoBlock,
}

/// The identifiers of a chunk list, concatenated back in order.
pub open spec fn concat_chunks(chunks: Seq<Seq<Seq<u8>>>) -> Seq<Seq<u8>>
    decreases chunks.len(),
{
    if chunks.len() == 0 {
        Seq::<Seq<u8>>::empty()
    } else {
        concat_chunks(chunks.drop_last()) + chunks.last()
    }
}

/// View of a chunk list: each chunk as the sequence of its identifiers.
pub open spec fn chunks_view(chunks: Seq<Vec<BlockId>>) -> Seq<Seq<Seq<u8>>> {
    chunks.map_values(|c: Vec<BlockId>| c@.map_values(|id: BlockId| id@))
}

/// Split an identifier list into fetch chunks: every chunk holds `chunk_size`
/// identifiers except possibly the last, none is empty, and concatenating
/// them restores the list.
pub fn chunk_ids(ids: Vec<BlockId>, chunk_size: usize) -> (r: Vec<Vec<BlockId>>)
    requires
        chunk_size >= 1,
    ensures
        concat_chunks(chunks_view(r@)) == ids@.map_values(|id: BlockId| id@),
        forall|i: int| 0 <= i < r@.len() ==> 1 <= #[trigger] r@[i]@.len() <= chunk_size,
        forall|i: int| 0 <= i < r@.len() - 1 ==> #[trigger] r@[i]@.len() == chunk_size,
    {
    let ghost idsv = ids@.map_values(|id: BlockId| id@);
    let mut r: Vec<Vec<BlockId>> = Vec::new();
    let mut current: Vec<BlockId> = Vec::new();
    let mut ids = ids;
    let mut i: usize = 0;
    proof {
        assert(concat_chunks(chunks_view(r@)) =~= Seq::<Seq<u8>>::empty());
        assert(Seq::<Seq<u8>>::empty() + current@.map_values(|id: BlockId| id@) =~= current@
            .map_values(|id: BlockId| id@));
        assert(idsv.take(0) =~= Seq::<Seq<u8>>::empty().add(current@.map_values(|id: BlockId| id@)));
    }
    while i < ids.len()
        invariant
            i <= ids@.len(),
            idsv == ids@.map_values(|id: BlockId| id@),
            chunk_size >= 1,
            current@.len() < chunk_size,
            concat_chunks(chunks_view(r@)) + current@.map_values(|id: BlockId| id@) == idsv.take(
                i as int,
            ),
            forall|j: int| 0 <= j < r@.len() ==> #[trigger] r@[j]@.len() == chunk_size,
        decreases ids@.len() - i,
    {
        let ghost done = concat_chunks(chunks_view(r@));
        let ghost cur0 = current@.map_values(|id: BlockId| id@);
        current.push(ids[i].clone());
        proof {
            assert(current@.map_values(|id: BlockId| id@) =~= cur0.push(idsv[i as int]));
            assert((done + cur0).push(idsv[i as int]) =~= done + cur0.push(idsv[i as int]));
            assert(idsv.take(i as int + 1) =~= idsv.take(i as int).push(idsv[i as int]));
            assert(done + cur0.push(idsv[i as int]) == idsv.take(i as int + 1));
        }
        if current.len() == chunk_size {
            let full = current;
            current = Vec::new();
            let ghost r0 = chunks_view(r@);
            r.push(full);
            proof {
                assert(chunks_view(r@).drop_last() =~= r0);
                assert(concat_chunks(chunks_view(r@)) == done + cur0.push(idsv[i as int]));
                assert(current@.map_values(|id: BlockId| id@) =~= Seq::<Seq<u8>>::empty());
                assert(concat_chunks(chunks_view(r@)) + current@.map_values(|id: BlockId| id@)
                    =~= idsv.take(i as int + 1));
            }
        }
        i = i + 1;
    }
    proof {
        assert(idsv.take(ids@.len() as int) =~= idsv);
    }
    if current.len() > 0 {
        let ghost r0 = chunks_view(r@);
        let ghost done = concat_chunks(chunks_view(r@));
        let ghost curv = current@.map_values(|id: BlockId| id@);
        r.push(current);
        proof {
            assert(chunks_view(r@).drop_last() =~= r0);
            assert(concat_chunks(chunks_view(r@)) == done + curv);
        }
    } else {
        proof {
            assert(concat_chunks(chunks_view(r@)) + Seq::<Seq<u8>>::empty() =~= concat_chunks(
                chunks_view(r@),
            ));
        }
    }
    r
}

/// Plan the full-block fetches for a range result: an empty range is the
/// no-block error; otherwise the identifiers are chunked for the node's
/// payload limit.
pub fn plan_full_blocks(ids: Vec<BlockId>, chunk_size: usize) -> (r: Result<Vec<Vec<BlockId>>, Error>)
    requires
        chunk_size >= 1,
    ensures
        match r {
            Err(e) => ids@.len() == 0 && e is NoBlock,
            Ok(chunks) => {
                &&& ids@.len() > 0
                &&& concat_chunks(chunks_view(chunks@)) == ids@.map_values(|id: BlockId| id@)
                &&& forall|i: int| 0 <= i < chunks@.len() ==> 1 <= #[trigger] chunks@[i]@.len()
                    <= chunk_size
                &&& forall|i: int| 0 <= i < chunks@.len() - 1 ==> #[trigger] chunks@[i]@.len()
                    == chunk_size
            },
        },
{
    if ids.len() == 0 {
        Err(Error::NoBlock)
    } else {
        Ok(chunk_ids(ids, chunk_size))
    }
}

/// The items of the full-block request body: the hex of each identifier,
/// quoted, comma-separated.
pub open spec fn hex_id_items(ids: Seq<Seq<u8>>) -> Seq<char>
    decreases ids.len(),
{
    if ids.len() == 0 {
        Seq::<char>::empty()
    } else if ids.len() == 1 {
        seq!['"'] + hex_of(ids.last()) + seq!['"']
    } else {
        hex_id_items(ids.drop_last()) + seq![','] + seq!['"'] + hex_of(ids.last()) + seq!['"']
    }
}

/// Body of the full-block request: a JSON array of the hex identifiers.
pub fn header_ids_body(ids: &Vec<BlockId>) -> (r: String)
    ensures
        r@ == seq!['['] + hex_id_items(ids@.map_values(|id: BlockId| id@)) + seq![']'],
{
    let ghost idsv = ids@.map_values(|id: BlockId| id@);
    let mut s = String::from_str("[");
    proof {
        reveal_strlit("[");
        assert(idsv.take(0) =~= Seq::<Seq<u8>>::empty());
        assert(s@ =~= seq!['['] + hex_id_items(idsv.take(0)));
    }
    let mut i: usize = 0;
    while i < ids.len()
        invariant
            i <= ids@.len(),
            idsv == ids@.map_values(|id: BlockId| id@),
            s@ == seq!['['] + hex_id_items(idsv.take(i as int)),
        decreases ids@.len() - i,
    {
        let ghost s0 = s@;
        if i > 0 {
            s.append(",");
            proof {
                reveal_strlit(",");
            }
        }
        s.append("\"");
        let hex = crate::encoding::encode_hex_lower(&ids[i].bytes);
        s.append(hex.as_str());
        s.append("\"");
        proof {
            reveal_strlit("\"");
            let t = idsv.take(i as int + 1);
            assert(t.drop_last() =~= idsv.take(i as int));
            assert(t.last() == idsv[i as int]);
            assert(s@ =~= seq!['['] + hex_id_items(t));
        }
        i = i + 1;
    }
    s.append("]");
    proof {
        reveal_strlit("]");
        assert(idsv.take(ids@.len() as int) =~= idsv);
        assert(s@ =~= seq!['['] + hex_id_items(idsv) + seq![']']);
    }
    s
}

} // verus!
