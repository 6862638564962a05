TeamSpeak3 Text to Speech
=========================

A TeamSpeak plugin that reads out what happens on a server: who comes, goes,
moves, is muted, writes a message and so on. It is meant for systems on which the
client has no text to speech of its own.

Layout
------
 - `src/`: the library. It decides what is said and when, and is verified with
   [Verus](https://github.com/verus-lang/verus).
 - `app/`: the plugin around it, built with
   [ts3plugin](https://github.com/Flakebi/rust-ts3plugin). It turns the data of the
   client into the types of the library and runs the threads and processes.
 - `tests/`: tests of the library.

Dependencies
------------
 - [eSpeak](http://espeak.sourceforge.net/)
 - aplay

To use other text to speech software, adjust `src/playback.rs` and the function
`perform` in `app/lib.rs`.

License
-------
GPLv2 or later.
