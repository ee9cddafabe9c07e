# cdfr_robot

Verified core of a small ESP32 robot controller.

- `src/ydlidar/ydlidar_cmd.rs`: the command set and address bytes of a YDLIDAR
  GS2, and the frame format (`A5 A5 A5 A5`, address, command, 16-bit length,
  payload, check code) with proofs about its layout and check code.
- `src/ydlidar/ydlidar_gs2.rs`: the link state (current address), the bytes of
  each command, the check of an address reply, and one step of a read with a
  timeout.
- `src/motor.rs`, `src/servo.rs`: the integer rules of the motor and servo
  drivers (pin levels, reversing, PWM duty orientation, servo duty bounds).
- `app/`: the ESP-IDF drivers and the display bring-up program, which do the
  serial, GPIO and PWM I/O and the floating-point scaling around the library.
