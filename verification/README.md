# Treasury

A pot of funds on a chain, from which proposals are paid that stakeholders have approved. Each
proposal takes a deposit, which goes back when the proposal is paid and is slashed when it is
rejected. At the end of each spend period the approved payments are made as far as the pot goes;
a share of what is left is burnt unless a payment has to wait.

- `src/` is the treasury itself, verified with Verus: what it keeps, what it decides, and what it
  asks of the chain's currency. `walk.rs` pays for the queue of approvals, `promotion.rs` takes up
  the proposals that had to wait, `spend.rs` puts a spend together, and `proposals.rs` has the
  requests of users. The functions that begin with `law_` state what holds of the whole.
- `app/` puts the treasury on a chain: storage, origins and the currency.
- `tests/` runs the treasury on concrete values.
