use crate::context::{CreateRentalListing, RentRoom, Settlement, Transfer};
use crate::error::ErrorCode;
use crate::identity::Identity;
use crate::state::RentalListing;
use vstd::prelude::*;

verus! {

/// Published when a room was rented.
#[derive(Clone, Copy, Debug, PartialEq, Eq)]
pub struct RoomRented {
    pub hotel: Identity,
    pub renter: Identity,
    pub room_number: u16,
    pub duration: i64,
    pub amount: u64,
}

/// Published when a room was listed for rent.
#[derive(Clone, Copy, Debug, PartialEq, Eq)]
pub struct RentalListingCreated {
    pub listing: Identity,
    pub owner: Identity,
    pub room_number: u16,
    pub price: u64,
}

/// The transfer of a rent: out of the renter's USDC account into the hotel
/// owner's, signed for by the renter.
pub open spec fn rent_transfers(ctx: RentRoom, usdc_amount: u64) -> Seq<Transfer> {
    seq![
        Transfer {
            from: ctx.renter_usdc_account.key,
            to: ctx.hotel_owner_usdc_account.key,
            authority: ctx.renter,
            amount: usdc_amount,
        },
    ]
}

/// Rents a room of the hotel for `usdc_amount`. Every room number up to and
/// including the hotel's room count is taken; a higher one is refused with
/// `InvalidRoomNumber`. On success the settlement orders the payment and
/// carries the event. No record changes.
pub fn rent_room(ctx: &RentRoom, room_number: u16, duration: i64, usdc_amount: u64) -> (done:
    Result<Settlement<RoomRented>, ErrorCode>)
    ensures
        done matches Ok(settlement) ==> {
            &&& room_number <= ctx.hotel.data.room_count
            &&& settlement.transfers@ == rent_transfers(*ctx, usdc_amount)
            &&& settlement.event == (RoomRented {
                hotel: ctx.hotel.key,
                renter: ctx.renter,
                room_number,
                duration,
                amount: usdc_amount,
            })
        },
        done matches Err(e) ==> room_number > ctx.hotel.data.room_count && e
            == ErrorCode::InvalidRoomNumber,
{
    if room_number > ctx.hotel.data.room_count {
        return Err(ErrorCode::InvalidRoomNumber);
    }
    let payment = Transfer {
        from: ctx.renter_usdc_account.key,
        to: ctx.hotel_owner_usdc_account.key,
        authority: ctx.renter,
        amount: usdc_amount,
    };
    let mut transfers: Vec<Transfer> = Vec::new();
    transfers.push(payment);
    Ok(
        Settlement {
            transfers,
            event: RoomRented {
                hotel: ctx.hotel.key,
                renter: ctx.renter,
                room_number,
                duration,
                amount: usdc_amount,
            },
        },
    )
}

/// Fills the listing record for the owner of the context: the room, the
/// price, and active. There is no input on which this is refused.
pub fn create_rental_listing(ctx: &mut CreateRentalListing, room_number: u16, price: u64) -> (event:
    RentalListingCreated)
    ensures
        final(ctx).rental_listing.key == old(ctx).rental_listing.key,
        final(ctx).owner == old(ctx).owner,
        final(ctx).rental_listing.data == (RentalListing {
            owner: old(ctx).owner,
            room_number,
            price,
            is_active: true,
        }),
        event == (RentalListingCreated {
            listing: old(ctx).rental_listing.key,
            owner: old(ctx).owner,
            room_number,
            price,
        }),
{
    ctx.rental_listing.data.owner = ctx.owner;
    ctx.rental_listing.data.room_number = room_number;
    ctx.rental_listing.data.price = price;
    ctx.rental_listing.data.is_active = true;
    RentalListingCreated {
        listing: ctx.rental_listing.key,
        owner: ctx.rental_listing.data.owner,
        room_number,
        price,
    }
}

} // verus!
