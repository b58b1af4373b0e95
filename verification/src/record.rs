//! The JN object record an entity is built from and written back to when a
//! game is saved.

use vstd::prelude::*;

verus! {

/// One JN object record: the authored (or saved) state of an object.
#[derive(Clone, Copy, Debug, PartialEq, Eq, Structural)]
pub struct JnObject {
    pub object_type: u8,
    pub x: u16,
    pub y: u16,
    pub x_speed: i16,
    pub y_speed: i16,
    pub width: u16,
    pub height: u16,
    pub state: i16,
    pub sub_state: u16,
    pub state_count: u16,
    pub counter: i16,
    pub flags: u16,
    pub pointer: u32,
    pub info1: i16,
    pub zap_hold: u16,
}

impl JnObject {
    /// A fresh record of `object_type` at `(x, y)` with the given size and
    /// every other field zero.
    pub fn spawned(object_type: u8, x: u16, y: u16, width: u16, height: u16) -> (r: JnObject)
        ensures
            r == (JnObject {
                object_type,
                x,
                y,
                x_speed: 0,
                y_speed: 0,
                width,
                height,
                state: 0,
                sub_state: 0,
                state_count: 0,
                counter: 0,
                flags: 0,
                pointer: 0,
                info1: 0,
                zap_hold: 0,
            }),
    {
        JnObject {
            object_type,
            x,
            y,
            x_speed: 0,
            y_speed: 0,
            width,
            height,
            state: 0,
            sub_state: 0,
            state_count: 0,
            counter: 0,
            flags: 0,
            pointer: 0,
            info1: 0,
            zap_hold: 0,
        }
    }

    pub fn set_position(&mut self, x: u16, y: u16)
        ensures
            *final(self) == (JnObject { x, y, ..*old(self) }),
    {
        self.x = x;
        self.y = y;
    }

    pub fn set_speed(&mut self, x_speed: i16, y_speed: i16)
        ensures
            *final(self) == (JnObject { x_speed, y_speed, ..*old(self) }),
    {
        self.x_speed = x_speed;
        self.y_speed = y_speed;
    }

    pub fn set_state(&mut self, state: i16)
        ensures
            *final(self) == (JnObject { state, ..*old(self) }),
    {
        self.state = state;
    }

    pub fn set_sub_state(&mut self, sub_state: u16)
        ensures
            *final(self) == (JnObject { sub_state, ..*old(self) }),
    {
        self.sub_state = sub_state;
    }

    pub fn set_state_count(&mut self, state_count: u16)
        ensures
            *final(self) == (JnObject { state_count, ..*old(self) }),
    {
        self.state_count = state_count;
    }

    pub fn set_counter(&mut self, counter: i16)
        ensures
            *final(self) == (JnObject { counter, ..*old(self) }),
    {
        self.counter = counter;
    }

    pub fn set_flags(&mut self, flags: u16)
        ensures
            *final(self) == (JnObject { flags, ..*old(self) }),
    {
        self.flags = flags;
    }

    pub fn set_info1(&mut self, info1: i16)
        ensures
            *final(self) == (JnObject { info1, ..*old(self) }),
    {
        self.info1 = info1;
    }

    pub fn set_zap_hold(&mut self, zap_hold: u16)
        ensures
            *final(self) == (JnObject { zap_hold, ..*old(self) }),
    {
        self.zap_hold = zap_hold;
    }

    pub fn set_dimensions(&mut self, width: u16, height: u16)
        ensures
            *final(self) == (JnObject { width, height, ..*old(self) }),
    {
        self.width = width;
        self.height = height;
    }
}

} // verus!
