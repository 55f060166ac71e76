//! What a record can be rendered as. Each trait takes the extra values
//! that the rendering needs as one argument of type `T`; the `Try` forms are
//! for renderings that can fail, and every plain rendering is also a `Try`
//! rendering that succeeds.

use vstd::prelude::*;

use crate::utility::platform::Button;
use crate::utility::platform::ButtonView;
use crate::utility::platform::Embed;
use crate::utility::platform::EmbedView;
use crate::utility::platform::Modal;
use crate::utility::platform::ModalView;
use crate::utility::ErrorView;
use crate::utility::Result;

verus! {

/// A record that may render as one button.
pub trait TryAsButton<T> {
    /// The button, or why there is none.
    spec fn try_button(&self, disabled: bool, args: T) -> core::result::Result<
        ButtonView,
        ErrorView,
    >;

    fn try_as_button(&self, disabled: bool, args: T) -> (r: Result<Button>)
        ensures
            match self.try_button(disabled, args) {
                Ok(button) => r matches Ok(got) && got@ == button,
                Err(e) => r matches Err(got) && got@ == e,
            },
    ;
}

/// A record that renders as one button.
pub trait AsButton<T> {
    /// The button.
    spec fn button_view(&self, disabled: bool, args: T) -> ButtonView;

    fn as_button(&self, disabled: bool, args: T) -> (button: Button)
        ensures
            button@ == self.button_view(disabled, args),
    ;
}

impl<T: AsButton<A>, A> TryAsButton<A> for T {
    open spec fn try_button(&self, disabled: bool, args: A) -> core::result::Result<
        ButtonView,
        ErrorView,
    > {
        Ok(self.button_view(disabled, args))
    }

    fn try_as_button(&self, disabled: bool, args: A) -> (r: Result<Button>) {
        Ok(self.as_button(disabled, args))
    }
}

/// A record that may render as a row of buttons.
pub trait TryAsButtonVec<T> {
    /// The buttons, or why there are none.
    spec fn try_buttons(&self, disabled: bool, args: T) -> core::result::Result<
        Seq<ButtonView>,
        ErrorView,
    >;

    fn try_as_buttons(&self, disabled: bool, args: T) -> (r: Result<Vec<Button>>)
        ensures
            match self.try_buttons(disabled, args) {
                Ok(buttons) => r matches Ok(got) && got.deep_view() == buttons,
                Err(e) => r matches Err(got) && got@ == e,
            },
    ;
}

/// A record that renders as a row of buttons.
pub trait AsButtonVec<T> {
    /// The buttons.
    spec fn buttons_view(&self, disabled: bool, args: T) -> Seq<ButtonView>;

    fn as_buttons(&self, disabled: bool, args: T) -> (buttons: Vec<Button>)
        ensures
            buttons.deep_view() == self.buttons_view(disabled, args),
    ;
}

impl<T: AsButtonVec<A>, A> TryAsButtonVec<A> for T {
    open spec fn try_buttons(&self, disabled: bool, args: A) -> core::result::Result<
        Seq<ButtonView>,
        ErrorView,
    > {
        Ok(self.buttons_view(disabled, args))
    }

    fn try_as_buttons(&self, disabled: bool, args: A) -> (r: Result<Vec<Button>>) {
        Ok(self.as_buttons(disabled, args))
    }
}

/// A record that may render as an embed.
pub trait TryAsEmbed<T> {
    /// The embed, or why there is none.
    spec fn try_embed(&self, args: T) -> core::result::Result<EmbedView, ErrorView>;

    fn try_as_embed(&self, args: T) -> (r: Result<Embed>)
        ensures
            match self.try_embed(args) {
                Ok(embed) => r matches Ok(got) && got@ == embed,
                Err(e) => r matches Err(got) && got@ == e,
            },
    ;
}

/// A record that renders as an embed.
pub trait AsEmbed<T> {
    /// The embed.
    spec fn embed_view(&self, args: T) -> EmbedView;

    fn as_embed(&self, args: T) -> (embed: Embed)
        ensures
            embed@ == self.embed_view(args),
    ;
}

impl<T: AsEmbed<A>, A> TryAsEmbed<A> for T {
    open spec fn try_embed(&self, args: A) -> core::result::Result<EmbedView, ErrorView> {
        Ok(self.embed_view(args))
    }

    fn try_as_embed(&self, args: A) -> (r: Result<Embed>) {
        Ok(self.as_embed(args))
    }
}

/// A record that may render as a modal.
pub trait TryAsModal<T> {
    /// The modal, or why there is none.
    spec fn try_modal(&self, args: T) -> core::result::Result<ModalView, ErrorView>;

    fn try_as_modal(&self, args: T) -> (r: Result<Modal>)
        ensures
            match self.try_modal(args) {
                Ok(modal) => r matches Ok(got) && got@ == modal,
                Err(e) => r matches Err(got) && got@ == e,
            },
    ;
}

/// A record that renders as a modal.
pub trait AsModal<T> {
    /// The modal.
    spec fn modal_view(&self, args: T) -> ModalView;

    fn as_modal(&self, args: T) -> (modal: Modal)
        ensures
            modal@ == self.modal_view(args),
    ;
}

impl<T: AsModal<A>, A> TryAsModal<A> for T {
    open spec fn try_modal(&self, args: A) -> core::result::Result<ModalView, ErrorView> {
        Ok(self.modal_view(args))
    }

    fn try_as_modal(&self, args: A) -> (r: Result<Modal>) {
        Ok(self.as_modal(args))
    }
}

} // verus!
