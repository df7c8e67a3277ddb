//! Serial interfaces: USART and EUSART.
pub mod eusart;
pub mod usart;
