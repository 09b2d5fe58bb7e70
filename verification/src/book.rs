//! The book: all records of the venue at one instant, and what holds of them
//! whatever operations are run.
//!
//! The engine works on the few records that an operation is handed and keeps
//! no list of them. The list exists here, in specifications only: the
//! protocol, the oracle, the vault of every owner that has one, and every
//! position in the order of their numbers. An operation works on records
//! taken out of the book, and its results are put back.

use vstd::prelude::*;
use crate::identity::Identity;
use crate::instructions::apply_funding::apply_funding_spec;
use crate::instructions::close_position::close_position_spec;
use crate::instructions::deposit::deposit_spec;
use crate::instructions::initialize::{initial_global_state, initial_price_feed};
use crate::instructions::liquidate::liquidate_spec;
use crate::instructions::open_position::open_position_spec;
use crate::instructions::set_price::set_price_spec;
use crate::instructions::withdraw::withdraw_spec;
use crate::operation::Operation;
use crate::state::global::{GlobalState, PriceFeed};
use crate::state::position::{Direction, Position};
use crate::state::vault::UserVault;

verus! {

/// What a position adds to the open interest of a side: its notional value
/// at entry while it is open and on that side, nothing otherwise.
pub open spec fn open_interest_of(position: Position, direction: Direction) -> int {
    if position.is_open && position.direction == direction {
        position.entry_notional_value()
    } else {
        0
    }
}

/// Sum of the notional values at entry of the open positions on one side.
pub open spec fn open_interest(positions: Seq<Position>, direction: Direction) -> int
    decreases positions.len(),
{
    if positions.len() == 0 {
        0
    } else {
        open_interest(positions.drop_last(), direction) + open_interest_of(
            positions.last(),
            direction,
        )
    }
}

/// What a position keeps locked in the vault of `owner`: its margin while it
/// is open and theirs, nothing otherwise.
pub open spec fn margin_locked_by(position: Position, owner: Identity) -> int {
    if position.is_open && position.owner == owner {
        position.margin as int
    } else {
        0
    }
}

/// Sum of the margins of the open positions of `owner`.
pub open spec fn margin_locked(positions: Seq<Position>, owner: Identity) -> int
    decreases positions.len(),
{
    if positions.len() == 0 {
        0
    } else {
        margin_locked(positions.drop_last(), owner) + margin_locked_by(positions.last(), owner)
    }
}

/// The empty vault that a party without a vault is taken to have.
pub open spec fn no_vault() -> UserVault {
    UserVault { owner: Identity::zero(), deposited_amount: 0, locked_margin: 0 }
}

/// The protocol, the oracle, the vaults by owner, and every position ever
/// opened, in the order of their numbers.
pub struct Book {
    pub global_state: GlobalState,
    pub price_feed: PriceFeed,
    pub vaults: Map<Identity, UserVault>,
    pub positions: Seq<Position>,
}

impl Book {
    /// The vault of `owner`: the one in the book, or an empty one.
    pub open spec fn vault_of(self, owner: Identity) -> UserVault {
        if self.vaults.dom().contains(owner) {
            self.vaults[owner]
        } else {
            no_vault()
        }
    }

    /// Whether `position` is in the book as it stands.
    pub open spec fn holds(self, position: Position) -> bool {
        &&& position.position_id < self.positions.len()
        &&& self.positions[position.position_id as int] == position
    }

    /// The book agrees with itself:
    /// - the two funding accumulators mirror each other;
    /// - a position's number is its place in the book, and the next number
    ///   is the first that is free;
    /// - the open interest of each side is the sum of the notional values of
    ///   the open positions on that side;
    /// - every vault is filed under its owner, and the owner of every
    ///   position has one;
    /// - no vault has more locked than it holds, and what it has locked is
    ///   the sum of the margins of its owner's open positions.
    pub open spec fn wf(self) -> bool {
        &&& self.global_state.wf()
        &&& self.global_state.next_position_id == self.positions.len()
        &&& forall|i: int|
            0 <= i < self.positions.len() ==> (#[trigger] self.positions[i]).position_id == i
        &&& self.global_state.total_long_oi == open_interest(self.positions, Direction::Long)
        &&& self.global_state.total_short_oi == open_interest(self.positions, Direction::Short)
        &&& forall|owner: Identity|
            self.vaults.dom().contains(owner) ==> (#[trigger] self.vaults[owner]).owner == owner
        &&& forall|i: int|
            0 <= i < self.positions.len() ==> self.vaults.dom().contains(
                (#[trigger] self.positions[i]).owner,
            )
        &&& forall|owner: Identity| (#[trigger] self.vault_of(owner)).wf()
        &&& forall|owner: Identity|
            (#[trigger] self.vault_of(owner)).locked_margin == margin_locked(self.positions, owner)
    }

    /// The book of a protocol that has just been set up: no vault and no
    /// position yet.
    pub open spec fn new(authority: Identity, usdc_mint: Identity, treasury: Identity, now: i64)
        -> Book {
        Book {
            global_state: initial_global_state(authority, usdc_mint, treasury, now),
            price_feed: initial_price_feed(authority),
            vaults: Map::empty(),
            positions: Seq::empty(),
        }
    }
}

/// The book after an operation on records taken out of it.
///
/// An operation that is rejected leaves the book as it is. So does one that
/// was handed other records than those of the book: the protocol and the
/// oracle as they stand, the position under its number, each vault under its
/// owner (the caller, the liquidator, the owner of the position), or an empty
/// vault where the party has none. A liquidator is another party than the
/// owner of the position. Setting up the protocol is what a book begins with,
/// and no operation on it.
///
/// A vault that is changed is filed under its party, a position that is
/// opened is added at the end, and one that is closed or liquidated is
/// replaced where it stands.
pub open spec fn apply(book: Book, operation: Operation) -> Book {
    match operation {
        Operation::Initialize { .. } => book,
        Operation::SetPrice { publication: ctx, price, now } => match set_price_spec(
            ctx,
            price,
            now,
        ) {
            Ok(next) if ctx.global_state == book.global_state && ctx.price_feed
                == book.price_feed => Book { price_feed: next.price_feed, ..book },
            _ => book,
        },
        Operation::Deposit { deposit: ctx, amount } => match deposit_spec(ctx, amount) {
            Ok(next) if ctx.user_vault == book.vault_of(ctx.user) => Book {
                vaults: book.vaults.insert(ctx.user, next.user_vault),
                ..book
            },
            _ => book,
        },
        Operation::Withdraw { withdrawal: ctx, amount } => match withdraw_spec(ctx, amount) {
            Ok(next) if ctx.user_vault == book.vault_of(ctx.user) => Book {
                vaults: book.vaults.insert(ctx.user, next.user_vault),
                ..book
            },
            _ => book,
        },
        Operation::OpenPosition { opening: ctx, params, now } => match open_position_spec(
            ctx,
            params,
            now,
        ) {
            Ok(next) if ctx.global_state == book.global_state && ctx.price_feed == book.price_feed
                && ctx.user_vault == book.vault_of(ctx.user) => Book {
                global_state: next.global_state,
                vaults: book.vaults.insert(ctx.user, next.user_vault),
                positions: book.positions.push(next.position),
                ..book
            },
            _ => book,
        },
        Operation::ClosePosition { closing: ctx, now } => match close_position_spec(ctx, now) {
            Ok(next) if ctx.global_state == book.global_state && ctx.price_feed == book.price_feed
                && ctx.user_vault == book.vault_of(ctx.user) && book.holds(ctx.position) => Book {
                global_state: next.global_state,
                vaults: book.vaults.insert(ctx.user, next.user_vault),
                positions: book.positions.update(ctx.position.position_id as int, next.position),
                ..book
            },
            _ => book,
        },
        Operation::Liquidate { liquidation: ctx, now } => match liquidate_spec(ctx, now) {
            Ok(next) if ctx.global_state == book.global_state && ctx.price_feed == book.price_feed
                && ctx.liquidator != ctx.position.owner && ctx.liquidator_vault == book.vault_of(
                ctx.liquidator,
            ) && ctx.owner_vault == book.vault_of(ctx.position.owner) && book.holds(
                ctx.position,
            ) => Book {
                global_state: next.global_state,
                vaults: book.vaults.insert(ctx.position.owner, next.owner_vault).insert(
                    ctx.liquidator,
                    next.liquidator_vault,
                ),
                positions: book.positions.update(ctx.position.position_id as int, next.position),
                ..book
            },
            _ => book,
        },
        Operation::ApplyFunding { funding: ctx, now } => match apply_funding_spec(ctx, now) {
            Ok(next) if ctx.global_state == book.global_state && ctx.price_feed
                == book.price_feed => Book { global_state: next.global_state, ..book },
            _ => book,
        },
    }
}

/// The book after a sequence of operations, one after the other.
pub open spec fn apply_all(book: Book, operations: Seq<Operation>) -> Book
    decreases operations.len(),
{
    if operations.len() == 0 {
        book
    } else {
        apply(apply_all(book, operations.drop_last()), operations.last())
    }
}

/// No position adds a negative amount to the open interest.
proof fn lemma_open_interest_of_nonnegative(position: Position, direction: Direction)
    ensures
        open_interest_of(position, direction) >= 0,
{
    assert(position.size * position.entry_price >= 0) by (nonlinear_arith);
}

/// The open interest of a side is never negative.
proof fn lemma_open_interest_nonnegative(positions: Seq<Position>, direction: Direction)
    ensures
        open_interest(positions, direction) >= 0,
    decreases positions.len(),
{
    if positions.len() > 0 {
        lemma_open_interest_of_nonnegative(positions.last(), direction);
        lemma_open_interest_nonnegative(positions.drop_last(), direction);
    }
}

/// Adding a position at the end adds what it counts for.
proof fn lemma_push(positions: Seq<Position>, position: Position)
    ensures
        forall|direction: Direction| #[trigger]
            open_interest(positions.push(position), direction) == open_interest(
                positions,
                direction,
            ) + open_interest_of(position, direction),
        forall|owner: Identity| #[trigger]
            margin_locked(positions.push(position), owner) == margin_locked(positions, owner)
                + margin_locked_by(position, owner),
{
    assert(positions.push(position).drop_last() =~= positions);
}

/// Replacing a position takes away from the open interest what the old one
/// counted for and adds what the new one counts for; and no position counts
/// for more than the sum.
proof fn lemma_open_interest_update(
    positions: Seq<Position>,
    index: int,
    position: Position,
    direction: Direction,
)
    requires
        0 <= index < positions.len(),
    ensures
        open_interest(positions.update(index, position), direction) == open_interest(
            positions,
            direction,
        ) - open_interest_of(positions[index], direction) + open_interest_of(position, direction),
        open_interest_of(positions[index], direction) <= open_interest(positions, direction),
    decreases positions.len(),
{
    let updated = positions.update(index, position);
    lemma_open_interest_of_nonnegative(positions.last(), direction);
    if index == positions.len() - 1 {
        assert(updated.drop_last() =~= positions.drop_last());
        lemma_open_interest_nonnegative(positions.drop_last(), direction);
    } else {
        assert(updated.drop_last() =~= positions.drop_last().update(index, position));
        lemma_open_interest_update(positions.drop_last(), index, position, direction);
    }
}

/// Replacing a position takes away from the locked margin of an owner what
/// the old one kept locked and adds what the new one keeps locked.
proof fn lemma_margin_locked_update(
    positions: Seq<Position>,
    index: int,
    position: Position,
    owner: Identity,
)
    requires
        0 <= index < positions.len(),
    ensures
        margin_locked(positions.update(index, position), owner) == margin_locked(positions, owner)
            - margin_locked_by(positions[index], owner) + margin_locked_by(position, owner),
    decreases positions.len(),
{
    let updated = positions.update(index, position);
    if index == positions.len() - 1 {
        assert(updated.drop_last() =~= positions.drop_last());
    } else {
        assert(updated.drop_last() =~= positions.drop_last().update(index, position));
        lemma_margin_locked_update(positions.drop_last(), index, position, owner);
    }
}

/// Closing the position at `index` changes the sums as replacing it does, on
/// both sides and for every owner.
proof fn lemma_update(positions: Seq<Position>, index: int, position: Position)
    requires
        0 <= index < positions.len(),
    ensures
        forall|direction: Direction| #[trigger]
            open_interest(positions.update(index, position), direction) == open_interest(
                positions,
                direction,
            ) - open_interest_of(positions[index], direction) + open_interest_of(
                position,
                direction,
            ),
        forall|direction: Direction|
            open_interest_of(positions[index], direction) <= #[trigger] open_interest(
                positions,
                direction,
            ),
        forall|owner: Identity| #[trigger]
            margin_locked(positions.update(index, position), owner) == margin_locked(
                positions,
                owner,
            ) - margin_locked_by(positions[index], owner) + margin_locked_by(position, owner),
{
    assert forall|direction: Direction| #[trigger]
        open_interest(positions.update(index, position), direction) == open_interest(
            positions,
            direction,
        ) - open_interest_of(positions[index], direction) + open_interest_of(
            position,
            direction,
        ) by {
        lemma_open_interest_update(positions, index, position, direction);
    }
    assert forall|direction: Direction|
        open_interest_of(positions[index], direction) <= #[trigger] open_interest(
            positions,
            direction,
        ) by {
        lemma_open_interest_update(positions, index, position, direction);
    }
    assert forall|owner: Identity| #[trigger]
        margin_locked(positions.update(index, position), owner) == margin_locked(positions, owner)
            - margin_locked_by(positions[index], owner) + margin_locked_by(position, owner) by {
        lemma_margin_locked_update(positions, index, position, owner);
    }
}

/// A protocol that has just been set up makes a book that agrees with
/// itself.
pub proof fn lemma_new_book_is_wf(
    authority: Identity,
    usdc_mint: Identity,
    treasury: Identity,
    now: i64,
)
    ensures
        Book::new(authority, usdc_mint, treasury, now).wf(),
{
    let book = Book::new(authority, usdc_mint, treasury, now);
    assert forall|owner: Identity| #[trigger] book.vault_of(owner) == no_vault() by {}
}

/// No operation breaks the book. Whatever is run on a book that agrees with
/// itself, afterwards it still does: no vault has more locked than it holds;
/// what it has locked is the sum of the margins of its owner's open
/// positions; the funding accumulators mirror each other; the open interest
/// of each side is the sum of the notional values of the open positions on
/// that side; and the positions are numbered by their place.
pub proof fn lemma_operation_keeps_book(book: Book, operation: Operation)
    requires
        book.wf(),
    ensures
        apply(book, operation).wf(),
{
    let after = apply(book, operation);
    if after != book {
        match operation {
            Operation::OpenPosition { opening: ctx, params, now } => {
                let next = open_position_spec(ctx, params, now)->Ok_0;
                lemma_push(book.positions, next.position);
                lemma_vaults_after(book, after, ctx.user, ctx.user);
            },
            Operation::ClosePosition { closing: ctx, now } => {
                let next = close_position_spec(ctx, now)->Ok_0;
                lemma_update(book.positions, ctx.position.position_id as int, next.position);
                lemma_vaults_after(book, after, ctx.user, ctx.user);
            },
            Operation::Liquidate { liquidation: ctx, now } => {
                let next = liquidate_spec(ctx, now)->Ok_0;
                lemma_update(book.positions, ctx.position.position_id as int, next.position);
                lemma_vaults_after(book, after, ctx.position.owner, ctx.liquidator);
            },
            Operation::Deposit { deposit: ctx, amount } => {
                lemma_vaults_after(book, after, ctx.user, ctx.user);
            },
            Operation::Withdraw { withdrawal: ctx, amount } => {
                lemma_vaults_after(book, after, ctx.user, ctx.user);
            },
            _ => {
                lemma_vaults_same(book, after);
            },
        }
    }
}

/// Where the vaults of a book are those of another but for two parties, the
/// vault of any other party is the same in both.
proof fn lemma_vaults_after(book: Book, after: Book, first: Identity, second: Identity)
    requires
        after.vaults.dom() =~= book.vaults.dom().insert(first).insert(second),
        forall|owner: Identity|
            owner != first && owner != second && book.vaults.dom().contains(owner)
                ==> #[trigger] after.vaults[owner] == book.vaults[owner],
    ensures
        forall|owner: Identity|
            owner != first && owner != second ==> #[trigger] after.vault_of(owner)
                == book.vault_of(owner),
        after.vault_of(first) == after.vaults[first],
        after.vault_of(second) == after.vaults[second],
{
}

/// Where the vaults of two books are the same, so is the vault of every
/// party.
proof fn lemma_vaults_same(book: Book, after: Book)
    requires
        after.vaults == book.vaults,
    ensures
        forall|owner: Identity| #[trigger] after.vault_of(owner) == book.vault_of(owner),
{
}

/// After any sequence of operations on a book that agrees with itself, the
/// book still does.
pub proof fn lemma_operations_keep_book(book: Book, operations: Seq<Operation>)
    requires
        book.wf(),
    ensures
        apply_all(book, operations).wf(),
    decreases operations.len(),
{
    if operations.len() > 0 {
        lemma_operations_keep_book(book, operations.drop_last());
        lemma_operation_keeps_book(apply_all(book, operations.drop_last()), operations.last());
    }
}

/// Nothing is ever taken out of the book, and what is closed stays as it is:
/// after an operation every vault is still there, every position is still
/// there under its number, and a position that was not open has not changed.
pub proof fn lemma_operation_keeps_history(book: Book, operation: Operation)
    ensures
        book.vaults.dom().subset_of(apply(book, operation).vaults.dom()),
        book.positions.len() <= apply(book, operation).positions.len(),
        forall|i: int|
            0 <= i < book.positions.len() && !book.positions[i].is_open ==> #[trigger] apply(
                book,
                operation,
            ).positions[i] == book.positions[i],
        forall|i: int|
            0 <= i < book.positions.len() ==> (#[trigger] apply(
                book,
                operation,
            ).positions[i]).position_id == book.positions[i].position_id,
{
}

} // verus!
