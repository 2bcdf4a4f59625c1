# mirrox

The verified core of MirrOx, an Android screen-mirroring tool built around
the scrcpy server.

- `src/` is the library, checked by Verus: the little-endian wire encoding,
  the framebuffer and `MIRR` frame formats, the client hello, the binder
  `createProjection` transaction and the parsing of the driver's replies,
  the step-by-step decisions of obtaining a projection token, of connecting
  with retries and of the screen streamer, the ADB command lines, and the
  frame checks and PNG decoding of the viewers.
- `app/` is the program around it: ADB processes, sockets, the binder
  device, FFmpeg demuxing, SDL2 windows, the websocket server and the JNI
  entry point.
- `tests/` exercises the library on concrete values.
