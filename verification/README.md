# wlink

Support for WCH-LinkRV debug probes.

`src/` is a library that decides what to send to a probe and what its answers mean. It is written
in Verus: what its functions do is stated in their contracts and proved. `src/laws.rs` states what
holds of the probe as a whole. `app/` does the USB transfers around it.

An operation of a probe, such as attaching to a chip, is a dialogue. A method of `WchLink` starts it
and gives its first `Step`. As long as that is a command to be sent, the reply to the command goes to
`WchLink::resume`, which gives the next step.
