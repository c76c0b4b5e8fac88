# careful_resume

A client and a server that speak HTTP/3 and resume carefully: the server hands
out BDP tokens, which hold what a connection learned of the path to a client,
and the client presents them on its next connection, so that it starts from the
capacity that was found before.

`src/` is the library: the logic of the two programs, written in Verus with its
contracts.

- `address`: the subnet rule that ties a token to a network.
- `bytes`: comparing byte strings, and decimal numbers.
- `key`: the server's key, from its hexadecimal text.
- `endpoint`: the server that a URL names, and the choice among its addresses.
- `tokens`: tokens, and the client's store of them.
- `collect`: the client's collecting of the tokens that a server sends.
- `resume`: what a server does with the token that a client presents.
- `server`: which connections are served, and which tokens are issued on them.
- `http`: requests and replies.
- `file`: sending a file, buffer by buffer.
- `client`: what the client measures, and the stream window it may be told.

Work that waits on the network or on a disk is done in `app/`, and so are the
settings of the transport and the steps that follow from an answer at once. Where
such work and decisions alternate the library is a state machine: it names the
work to do next, and takes its outcome.

What is believed without proof is marked as trusted in the comments: the calls
of `hex::decode`, of `url::Url::parse` and of `choose` from `rand`.
