//! The member names and tags of the wire format, and what tells them apart.

use vstd::prelude::*;

verus! {

/// The names that the envelope, the body and the handshake use differ from one
/// another, and so do the two tags of the handshake.
pub proof fn lemma_names()
    ensures
        "src"@ != "dest"@,
        "src"@ != "body"@,
        "dest"@ != "body"@,
        "msg_id"@ != "in_reply_to"@,
        "type"@ != "msg_id"@,
        "type"@ != "in_reply_to"@,
        "type"@ != "node_id"@,
        "type"@ != "node_ids"@,
        "node_id"@ != "node_ids"@,
        "node_id"@ != "msg_id"@,
        "node_id"@ != "in_reply_to"@,
        "node_ids"@ != "msg_id"@,
        "node_ids"@ != "in_reply_to"@,
        "init"@ != "init_ok"@,
{
    reveal_strlit("src");
    reveal_strlit("dest");
    reveal_strlit("body");
    reveal_strlit("msg_id");
    reveal_strlit("in_reply_to");
    reveal_strlit("type");
    reveal_strlit("node_id");
    reveal_strlit("node_ids");
    reveal_strlit("init");
    reveal_strlit("init_ok");
    assert("src"@.len() == 3);
    assert("dest"@.len() == 4 && "dest"@[0] == 'd');
    assert("body"@.len() == 4 && "body"@[0] == 'b');
    assert("type"@.len() == 4);
    assert("msg_id"@.len() == 6);
    assert("in_reply_to"@.len() == 11);
    assert("node_id"@.len() == 7);
    assert("node_ids"@.len() == 8);
    assert("init"@.len() == 4);
    assert("init_ok"@.len() == 7);
}

} // verus!
