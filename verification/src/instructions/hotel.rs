use crate::context::{InitializeHotel, VerifyHotel};
use crate::error::ErrorCode;
use crate::identity::Identity;
use crate::state::HotelModel;
use vstd::prelude::*;

verus! {

/// Published when a hotel was verified.
#[derive(Clone, Copy, Debug, PartialEq, Eq)]
pub struct HotelVerified {
    pub hotel: Identity,
    pub owner: Identity,
}

/// Fills the hotel record for the owner of the context: the name, the room
/// count, and not yet verified. A hotel without rooms is refused with
/// `InvalidRoomCount`, and nothing changes.
pub fn initialize_hotel(ctx: &mut InitializeHotel, name: String, room_count: u16) -> (done: Result<
    (),
    ErrorCode,
>)
    ensures
        final(ctx).hotel.key == old(ctx).hotel.key,
        final(ctx).owner == old(ctx).owner,
        done matches Ok(_) ==> room_count > 0 && final(ctx).hotel.data@ == (HotelModel {
            owner: old(ctx).owner,
            name: name@,
            room_count: room_count as nat,
            is_verified: false,
        }),
        done matches Err(e) ==> room_count == 0 && e == ErrorCode::InvalidRoomCount && *final(ctx)
            == *old(ctx),
{
    if room_count == 0 {
        return Err(ErrorCode::InvalidRoomCount);
    }
    ctx.hotel.data.owner = ctx.owner;
    ctx.hotel.data.name = name;
    ctx.hotel.data.room_count = room_count;
    ctx.hotel.data.is_verified = false;
    Ok(())
}

/// Marks the hotel as verified and reports it with its owner. The rest of
/// the record stays. There is no input on which this is refused.
pub fn verify_hotel(ctx: &mut VerifyHotel) -> (event: HotelVerified)
    ensures
        final(ctx).hotel.key == old(ctx).hotel.key,
        final(ctx).owner == old(ctx).owner,
        final(ctx).authority == old(ctx).authority,
        final(ctx).hotel.data@ == (HotelModel { is_verified: true, ..old(ctx).hotel.data@ }),
        event == (HotelVerified { hotel: old(ctx).hotel.key, owner: old(ctx).hotel.data.owner }),
{
    ctx.hotel.data.is_verified = true;
    HotelVerified { hotel: ctx.hotel.key, owner: ctx.hotel.data.owner }
}

} // verus!
